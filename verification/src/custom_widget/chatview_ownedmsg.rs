//! The chat view widget that owns its messages: its cached ids, the messages it shows,
//! and what its text box and its "Enter" button do to the text being edited.
use vstd::prelude::*;
use crate::widget_id::{fresh_indices, generate_id, graph_has_room, widget_graph_len, widget_id_index};

verus! {

/// The widget ids of the chat view's parts.
pub struct Ids {
    pub chat_canvas: conrod::widget::Id,
    pub message_panel: conrod::widget::Id,
    pub history_list: conrod::widget::Id,
    pub text_edit_body: conrod::widget::Id,
    pub text_edit_panel: conrod::widget::Id,
    pub text_edit_panel_scrollbar: conrod::widget::Id,
    pub text_edit: conrod::widget::Id,
    pub text_rect: conrod::widget::Id,
    pub text_edit_button_panel: conrod::widget::Id,
    pub text_edit_button: conrod::widget::Id,
}

/// The number of ids in `Ids`.
pub open spec fn id_count() -> nat {
    10
}

impl Ids {
    /// The graph indices of the ids, in the order they are declared.
    pub open spec fn indices(self) -> Seq<usize> {
        seq![
            widget_id_index(self.chat_canvas),
            widget_id_index(self.message_panel),
            widget_id_index(self.history_list),
            widget_id_index(self.text_edit_body),
            widget_id_index(self.text_edit_panel),
            widget_id_index(self.text_edit_panel_scrollbar),
            widget_id_index(self.text_edit),
            widget_id_index(self.text_rect),
            widget_id_index(self.text_edit_button_panel),
            widget_id_index(self.text_edit_button),
        ]
    }

    /// Generates each id in declaration order.
    pub fn new(generator: conrod::widget::id::Generator) -> (ids: Self)
        requires
            graph_has_room(widget_graph_len(generator), id_count()),
        ensures
            ids.indices() == fresh_indices(widget_graph_len(generator), id_count()),
    {
        let ghost base = widget_graph_len(generator);
        let mut generator = generator;
        let chat_canvas = generate_id(&mut generator);
        let message_panel = generate_id(&mut generator);
        let history_list = generate_id(&mut generator);
        let text_edit_body = generate_id(&mut generator);
        let text_edit_panel = generate_id(&mut generator);
        let text_edit_panel_scrollbar = generate_id(&mut generator);
        let text_edit = generate_id(&mut generator);
        let text_rect = generate_id(&mut generator);
        let text_edit_button_panel = generate_id(&mut generator);
        let text_edit_button = generate_id(&mut generator);
        let ids = Ids {
            chat_canvas,
            message_panel,
            history_list,
            text_edit_body,
            text_edit_panel,
            text_edit_panel_scrollbar,
            text_edit,
            text_rect,
            text_edit_button_panel,
            text_edit_button,
        };
        assert(ids.indices() =~= fresh_indices(base, id_count()));
        ids
    }
}

/// Represents the unique, cached state for the chat view widget.
pub struct State {
    pub ids: Ids,
}

/// One chat message: who sent it, with which picture, and what it says.
#[derive(Debug)]
pub struct Message {
    pub image_id: conrod::image::Id,
    pub name: String,
    pub text: String,
}

/// What the text being edited becomes after the text box reported `edits`, in order:
/// the last edit, or the text unchanged when there was none.
pub open spec fn edited_text(text: Seq<char>, edits: Seq<String>) -> Seq<char> {
    if edits.len() == 0 {
        text
    } else {
        edits.last()@
    }
}

/// Takes each edit that the text box reported in this update, in order, as the text
/// being edited.
pub fn apply_edits(text_edit: &mut String, edits: Vec<String>)
    ensures
        final(text_edit)@ == edited_text(old(text_edit)@, edits@),
        edits@.len() > 0 ==> final(text_edit)@ == edits@[edits@.len() - 1]@,
        edits@.len() == 0 ==> final(text_edit)@ == old(text_edit)@,
{
    proof {
        lemma_last_edit_wins(old(text_edit)@, edits@);
    }
    let ghost all = edits@;
    for edit in it: edits
        invariant
            it.seq() == all,
            text_edit@ == edited_text(old(text_edit)@, all.take(it.index() as int)),
    {
        assert(all.take(it.index() + 1).last() == edit);
        *text_edit = edit;
    }
    assert(all.take(all.len() as int) =~= all);
}

/// What the "Enter" button does: the text being edited becomes a message from `name`
/// with the picture `image_id`, and the text box is emptied.
pub fn submit(text_edit: &mut String, name: &String, image_id: conrod::image::Id) -> (msg: Message)
    ensures
        msg.image_id == image_id,
        msg.name == *name,
        msg.text == *old(text_edit),
        final(text_edit)@ == Seq::<char>::empty(),
{
    let msg = Message { image_id, name: name.clone(), text: text_edit.clone() };
    *text_edit = String::new();
    msg
}

/// The text being edited after one update of the widget: a disabled widget takes no
/// input; an enabled one takes the text box's edits, and a click on "Enter" empties it.
pub open spec fn text_after_input(
    enabled: bool,
    text: Seq<char>,
    edits: Seq<String>,
    clicked: bool,
) -> Seq<char> {
    if !enabled {
        text
    } else if clicked {
        Seq::<char>::empty()
    } else {
        edited_text(text, edits)
    }
}

/// The user input of one update of the widget: the text box's `edits`, and whether
/// "Enter" was `clicked`. A disabled widget ignores both. An enabled one takes the edits;
/// on a click the edited text becomes the message to send, and the text box is emptied.
/// The message is returned exactly when an enabled widget was clicked.
pub fn handle_input(
    enabled: bool,
    text_edit: &mut String,
    edits: Vec<String>,
    clicked: bool,
    name: &String,
    image_id: conrod::image::Id,
) -> (sent: Option<Message>)
    ensures
        sent is Some <==> enabled && clicked,
        sent matches Some(m) ==> {
            &&& m.image_id == image_id
            &&& m.name == *name
            &&& m.text@ == edited_text(old(text_edit)@, edits@)
            &&& edits@.len() > 0 ==> m.text@ == edits@[edits@.len() - 1]@
            &&& edits@.len() == 0 ==> m.text@ == old(text_edit)@
        },
        final(text_edit)@ == text_after_input(enabled, old(text_edit)@, edits@, clicked),
{
    if !enabled {
        return None;
    }
    apply_edits(text_edit, edits);
    if clicked {
        Some(submit(text_edit, name, image_id))
    } else {
        None
    }
}

/// Whenever the text box reports at least one edit, the text being edited becomes exactly
/// the last edit, whatever it holds (an empty edit empties the text); with no edit the
/// text stays as it was.
pub proof fn lemma_last_edit_wins(text: Seq<char>, edits: Seq<String>)
    ensures
        edits.len() > 0 ==> edited_text(text, edits) == edits[edits.len() - 1]@,
        edits.len() == 0 ==> edited_text(text, edits) == text,
{
}

/// One update of the widget: a disabled widget keeps its text whatever the input; an
/// enabled one that was clicked ends with an empty text box; an enabled one that was not
/// clicked ends with the last edit, or its old text when there was none.
pub proof fn lemma_input_effect(text: Seq<char>, edits: Seq<String>, clicked: bool)
    ensures
        text_after_input(false, text, edits, clicked) == text,
        text_after_input(true, text, edits, true).len() == 0,
        edits.len() > 0 ==> text_after_input(true, text, edits, false) == edits[edits.len() - 1]@,
        edits.len() == 0 ==> text_after_input(true, text, edits, false) == text,
{
}

} // verus!
