//! The cached state of the chat view widget that renders borrowed messages: the widget
//! ids of its parts, and the id lists that grow with the number of messages shown.
use vstd::prelude::*;
use crate::custom_widget::chatview_ownedmsg::{apply_edits, text_after_input};
use crate::widget_id::{
    deficit, fresh_indices, generate_id, graph_has_room, id_list_contents, id_list_len,
    lemma_fresh_ids_keep_nodes_unique, new_id_list, resize_id_list, resized, unique_nodes,
    widget_graph_len, widget_id_index,
};

verus! {

/// The widget ids of the chat view's parts. Each single id is generated once; each list
/// holds one id per message shown.
pub struct Ids {
    pub chat_canvas: conrod::widget::Id,
    pub message_panel: conrod::widget::Id,
    pub display_pics: conrod::widget::id::List,
    pub names: conrod::widget::id::List,
    pub texts: conrod::widget::id::List,
    pub rects: conrod::widget::id::List,
    pub text_edit_body: conrod::widget::Id,
    pub text_edit_panel: conrod::widget::Id,
    pub text_edit_panel_scrollbar: conrod::widget::Id,
    pub text_edit: conrod::widget::Id,
    pub text_rect: conrod::widget::Id,
    pub text_edit_button_panel: conrod::widget::Id,
    pub text_edit_button: conrod::widget::Id,
}

/// The number of single ids in `Ids`.
pub open spec fn single_id_count() -> nat {
    9
}

impl Ids {
    /// The graph indices of the single ids, in the order they are declared.
    pub open spec fn single_indices(self) -> Seq<usize> {
        seq![
            widget_id_index(self.chat_canvas),
            widget_id_index(self.message_panel),
            widget_id_index(self.text_edit_body),
            widget_id_index(self.text_edit_panel),
            widget_id_index(self.text_edit_panel_scrollbar),
            widget_id_index(self.text_edit),
            widget_id_index(self.text_rect),
            widget_id_index(self.text_edit_button_panel),
            widget_id_index(self.text_edit_button),
        ]
    }

    /// Whether every single id is the same as in `other`.
    pub open spec fn same_single_ids(self, other: Ids) -> bool {
        &&& self.chat_canvas == other.chat_canvas
        &&& self.message_panel == other.message_panel
        &&& self.text_edit_body == other.text_edit_body
        &&& self.text_edit_panel == other.text_edit_panel
        &&& self.text_edit_panel_scrollbar == other.text_edit_panel_scrollbar
        &&& self.text_edit == other.text_edit
        &&& self.text_rect == other.text_rect
        &&& self.text_edit_button_panel == other.text_edit_button_panel
        &&& self.text_edit_button == other.text_edit_button
    }

    /// Generates each single id in declaration order and starts each list empty.
    pub fn new(generator: conrod::widget::id::Generator) -> (ids: Self)
        requires
            graph_has_room(widget_graph_len(generator), single_id_count()),
        ensures
            ids.single_indices() == fresh_indices(widget_graph_len(generator), single_id_count()),
            id_list_contents(ids.display_pics) == Seq::<usize>::empty(),
            id_list_contents(ids.names) == Seq::<usize>::empty(),
            id_list_contents(ids.texts) == Seq::<usize>::empty(),
            id_list_contents(ids.rects) == Seq::<usize>::empty(),
    {
        let ghost base = widget_graph_len(generator);
        let mut generator = generator;
        let chat_canvas = generate_id(&mut generator);
        let message_panel = generate_id(&mut generator);
        let display_pics = new_id_list();
        let names = new_id_list();
        let texts = new_id_list();
        let rects = new_id_list();
        let text_edit_body = generate_id(&mut generator);
        let text_edit_panel = generate_id(&mut generator);
        let text_edit_panel_scrollbar = generate_id(&mut generator);
        let text_edit = generate_id(&mut generator);
        let text_rect = generate_id(&mut generator);
        let text_edit_button_panel = generate_id(&mut generator);
        let text_edit_button = generate_id(&mut generator);
        let ids = Ids {
            chat_canvas,
            message_panel,
            display_pics,
            names,
            texts,
            rects,
            text_edit_body,
            text_edit_panel,
            text_edit_panel_scrollbar,
            text_edit,
            text_rect,
            text_edit_button_panel,
            text_edit_button,
        };
        assert(ids.single_indices() =~= fresh_indices(base, single_id_count()));
        ids
    }
}

/// Represents the unique, cached state for the chat view widget.
pub struct State {
    pub ids: Ids,
}

/// The ids of a list that is grown to `target` only when it is shorter, with fresh ids
/// starting at `base`.
pub open spec fn grown(ids: Seq<usize>, target: nat, base: nat) -> Seq<usize> {
    if ids.len() < target {
        resized(ids, target, base)
    } else {
        ids
    }
}

impl State {
    /// Resizes the list of display-picture ids to `num_list`, drawing any new ids from
    /// `gen`; every other id is left as it was.
    pub fn resize(&mut self, num_list: usize, gen: &mut conrod::widget::id::Generator)
        requires
            graph_has_room(
                widget_graph_len(*old(gen)),
                deficit(id_list_contents(old(self).ids.display_pics).len(), num_list as nat),
            ),
        ensures
            id_list_contents(final(self).ids.display_pics) == resized(
                id_list_contents(old(self).ids.display_pics),
                num_list as nat,
                widget_graph_len(*old(gen)),
            ),
            widget_graph_len(*final(gen)) == widget_graph_len(*old(gen)) + deficit(
                id_list_contents(old(self).ids.display_pics).len(),
                num_list as nat,
            ),
            final(self).ids.names == old(self).ids.names,
            final(self).ids.texts == old(self).ids.texts,
            final(self).ids.rects == old(self).ids.rects,
            final(self).ids.same_single_ids(old(self).ids),
    {
        resize_id_list(&mut self.ids.display_pics, num_list, gen);
    }

    /// Makes every id list hold at least `num_list` ids before `num_list` messages are
    /// drawn: each list that is shorter is resized to `num_list`, in the order display
    /// pictures, names, texts, rectangles, each drawing its new ids from `gen` in turn;
    /// a list that is long enough is left as it is.
    pub fn grow_id_lists(&mut self, num_list: usize, gen: &mut conrod::widget::id::Generator)
        requires
            graph_has_room(
                widget_graph_len(*old(gen)),
                deficit(id_list_contents(old(self).ids.display_pics).len(), num_list as nat)
                    + deficit(id_list_contents(old(self).ids.names).len(), num_list as nat)
                    + deficit(id_list_contents(old(self).ids.texts).len(), num_list as nat)
                    + deficit(id_list_contents(old(self).ids.rects).len(), num_list as nat),
            ),
        ensures
            ({
                let n = num_list as nat;
                let g0 = widget_graph_len(*old(gen));
                let pics = id_list_contents(old(self).ids.display_pics);
                let names = id_list_contents(old(self).ids.names);
                let texts = id_list_contents(old(self).ids.texts);
                let rects = id_list_contents(old(self).ids.rects);
                let g1 = g0 + deficit(pics.len(), n);
                let g2 = g1 + deficit(names.len(), n);
                let g3 = g2 + deficit(texts.len(), n);
                &&& id_list_contents(final(self).ids.display_pics) == grown(pics, n, g0)
                &&& id_list_contents(final(self).ids.names) == grown(names, n, g1)
                &&& id_list_contents(final(self).ids.texts) == grown(texts, n, g2)
                &&& id_list_contents(final(self).ids.rects) == grown(rects, n, g3)
                &&& widget_graph_len(*final(gen)) == g3 + deficit(rects.len(), n)
            }),
            final(self).ids.same_single_ids(old(self).ids),
    {
        if id_list_len(&self.ids.display_pics) < num_list {
            resize_id_list(&mut self.ids.display_pics, num_list, gen);
        }
        if id_list_len(&self.ids.names) < num_list {
            resize_id_list(&mut self.ids.names, num_list, gen);
        }
        if id_list_len(&self.ids.texts) < num_list {
            resize_id_list(&mut self.ids.texts, num_list, gen);
        }
        if id_list_len(&self.ids.rects) < num_list {
            resize_id_list(&mut self.ids.rects, num_list, gen);
        }
    }
}

/// The user input of one update of the widget: the text box's `edits`, and whether
/// "Enter" was `clicked`. A disabled widget ignores both. An enabled one takes the edits,
/// and a click empties the text box. The widget's event is `Some` exactly when an enabled
/// widget was clicked.
pub fn handle_input(enabled: bool, text_edit: &mut String, edits: Vec<String>, clicked: bool) -> (event:
    Option<()>)
    ensures
        event is Some <==> enabled && clicked,
        final(text_edit)@ == text_after_input(enabled, old(text_edit)@, edits@, clicked),
{
    if !enabled {
        return None;
    }
    apply_edits(text_edit, edits);
    if clicked {
        *text_edit = String::new();
        Some(())
    } else {
        None
    }
}

/// Growing the id lists keeps every id of the widget its own: when the widget's ids are
/// distinct nodes of the graph before `grow_id_lists`, they are distinct nodes of the grown
/// graph after it.
pub proof fn lemma_grow_keeps_ids_unique(
    singles: Seq<usize>,
    pics: Seq<usize>,
    names: Seq<usize>,
    texts: Seq<usize>,
    rects: Seq<usize>,
    n: nat,
    g0: nat,
)
    requires
        unique_nodes(singles + pics + names + texts + rects, g0),
        graph_has_room(
            g0,
            deficit(pics.len(), n) + deficit(names.len(), n) + deficit(texts.len(), n)
                + deficit(rects.len(), n),
        ),
    ensures
        ({
            let g1 = g0 + deficit(pics.len(), n);
            let g2 = g1 + deficit(names.len(), n);
            let g3 = g2 + deficit(texts.len(), n);
            let g4 = g3 + deficit(rects.len(), n);
            unique_nodes(
                singles + grown(pics, n, g0) + grown(names, n, g1) + grown(texts, n, g2) + grown(
                    rects,
                    n,
                    g3,
                ),
                g4,
            )
        }),
{
    let d1 = deficit(pics.len(), n);
    let d2 = deficit(names.len(), n);
    let d3 = deficit(texts.len(), n);
    let d4 = deficit(rects.len(), n);
    let g1 = g0 + d1;
    let g2 = g1 + d2;
    let g3 = g2 + d3;
    let g4 = g3 + d4;
    let f1 = fresh_indices(g0, d1);
    let f2 = fresh_indices(g1, d2);
    let f3 = fresh_indices(g2, d3);
    let f4 = fresh_indices(g3, d4);
    assert(grown(pics, n, g0) =~= pics + f1);
    assert(grown(names, n, g1) =~= names + f2);
    assert(grown(texts, n, g2) =~= texts + f3);
    assert(grown(rects, n, g3) =~= rects + f4);
    let s1 = singles + pics;
    assert(singles + pics + names + texts + rects =~= s1 + (names + texts + rects));
    lemma_fresh_ids_keep_nodes_unique(s1, names + texts + rects, g0, d1);
    let s2 = s1 + f1 + names;
    assert(s1 + f1 + (names + texts + rects) =~= s2 + (texts + rects));
    lemma_fresh_ids_keep_nodes_unique(s2, texts + rects, g1, d2);
    let s3 = s2 + f2 + texts;
    assert(s2 + f2 + (texts + rects) =~= s3 + rects);
    lemma_fresh_ids_keep_nodes_unique(s3, rects, g2, d3);
    let s4 = s3 + f3 + rects;
    assert(s3 + f3 + rects =~= s4 + Seq::<usize>::empty());
    lemma_fresh_ids_keep_nodes_unique(s4, Seq::<usize>::empty(), g3, d4);
    assert(s4 + f4 + Seq::<usize>::empty() =~= singles + (pics + f1) + (names + f2) + (texts + f3)
        + (rects + f4));
}

} // verus!
