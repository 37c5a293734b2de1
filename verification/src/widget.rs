//! What the harness reads of the widget tree.

use vstd::prelude::*;

use crate::geometry::Point;
use vstd::string::StringExecFns;

verus! {

/// The outside type `cursor_icon::CursorIcon`: the shape of the mouse cursor.
/// It is only passed on.
#[verifier::external_type_specification]
#[verifier::external_body]
pub struct ExCursorIcon(cursor_icon::CursorIcon);

/// The number that identifies a widget.
#[derive(Clone, Copy, Debug, PartialEq, Eq, Structural)]
pub struct WidgetId(pub u64);

/// A widget, with what the harness needs to know of it, and its children.
#[derive(Debug)]
pub struct WidgetNode {
    pub id: WidgetId,
    /// The widget is present but not shown.
    pub is_stashed: bool,
    /// The widget does not react to the user.
    pub is_disabled: bool,
    /// The widget can be the target of pointer events.
    pub accepts_pointer_interaction: bool,
    /// The center of the widget's layout rectangle in the window.
    pub center: Point,
    /// The widget that the pointer is over when it is at `center`.
    pub hit_at_center: Option<WidgetId>,
    pub children: Vec<WidgetNode>,
}

/// The state of the widget tree, as it is between two events.
#[derive(Debug)]
pub struct RenderRoot {
    pub root: WidgetNode,
    /// The widget that receives text events.
    pub focused_widget: Option<WidgetId>,
    /// The widget that receives all pointer events.
    pub pointer_capture_target: Option<WidgetId>,
    pub cursor_icon: cursor_icon::CursorIcon,
}

impl WidgetNode {
    /// The widget and all its descendants, each before its children and the
    /// children in order.
    pub open spec fn preorder(self) -> Seq<WidgetNode>
        decreases self,
    {
        seq![self] + preorder_of_all(self.children@)
    }

    /// Appends the subtree to `visited`, each widget before its children.
    pub(crate) fn visit<'a>(&'a self, visited: &mut Vec<&'a WidgetNode>)
        ensures
            unref(final(visited)@) == unref(old(visited)@) + self.preorder(),
        decreases *self,
    {
        visited.push(self);
        let mut i: usize = 0;
        proof {
            assert(self.children@.skip(0) == self.children@);
        }
        while i < self.children.len()
            invariant
                i <= self.children@.len(),
                unref(visited@) + preorder_of_all(self.children@.skip(i as int)) == unref(
                    old(visited)@,
                ) + self.preorder(),
            decreases self.children@.len() - i,
        {
            proof {
                assert(self.children@.skip(i as int).drop_first() == self.children@.skip(i + 1));
            }
            let child = &self.children[i];
            child.visit(visited);
            i = i + 1;
        }
    }

    /// Finds the first widget of the subtree, in the order of
    /// [`preorder`](Self::preorder), that has the given id.
    pub fn find_widget_by_id(&self, id: WidgetId) -> (found: Option<&WidgetNode>)
        ensures
            found matches Some(widget) ==> first_with_id(self.preorder(), id) == Some(*widget),
            found is None ==> first_with_id(self.preorder(), id) is None,
        decreases *self,
    {
        if self.id == id {
            return Some(self);
        }
        let mut i: usize = 0;
        proof {
            assert(self.children@.skip(0) == self.children@);
            assert(self.preorder().drop_first() == preorder_of_all(self.children@));
        }
        while i < self.children.len()
            invariant
                i <= self.children@.len(),
                first_with_id(self.preorder(), id) == first_with_id(
                    preorder_of_all(self.children@.skip(i as int)),
                    id,
                ),
            decreases self.children@.len() - i,
        {
            let ghost rest = self.children@.skip(i as int);
            proof {
                assert(rest.drop_first() == self.children@.skip(i + 1));
                lemma_first_with_id_of_sum(
                    rest[0].preorder(),
                    preorder_of_all(rest.drop_first()),
                    id,
                );
            }
            let child = &self.children[i];
            match child.find_widget_by_id(id) {
                Some(widget) => {
                    return Some(widget);
                },
                None => {},
            }
            i = i + 1;
        }
        None
    }
}

impl RenderRoot {
    /// The widget with the given id.
    pub open spec fn lookup(self, id: WidgetId) -> Option<WidgetNode> {
        first_with_id(self.root.preorder(), id)
    }

    /// The widget that an optional id stands for.
    pub open spec fn target(self, id: Option<WidgetId>) -> Option<WidgetNode> {
        match id {
            Some(id) => self.lookup(id),
            None => None,
        }
    }

    /// Why the pointer cannot be put on a widget, if there is a reason.
    pub open spec fn pointer_obstacle(self, id: WidgetId) -> Option<PointerTargetError> {
        match self.lookup(id) {
            None => Some(PointerTargetError::NotFound),
            Some(widget) => if !widget.accepts_pointer_interaction {
                Some(PointerTargetError::NoPointerEvents)
            } else if widget.is_disabled {
                Some(PointerTargetError::Disabled)
            } else if widget.is_stashed || widget.hit_at_center != Some(id) {
                Some(PointerTargetError::NotVisible)
            } else {
                None
            },
        }
    }

    /// Why a widget cannot be focused, if there is a reason.
    pub open spec fn focus_obstacle(self, id: WidgetId) -> Option<FocusError> {
        match self.lookup(id) {
            None => Some(FocusError::NotFound),
            Some(widget) => if widget.is_stashed {
                Some(FocusError::Stashed)
            } else if widget.is_disabled {
                Some(FocusError::Disabled)
            } else {
                None
            },
        }
    }

    /// The widget with the given id, if the tree has it.
    pub fn get_widget(&self, id: WidgetId) -> (found: Option<&WidgetNode>)
        ensures
            found matches Some(widget) ==> self.lookup(id) == Some(*widget),
            found is None ==> self.lookup(id) is None,
    {
        self.root.find_widget_by_id(id)
    }

    /// Tells why the pointer cannot be put on a widget.
    pub fn pointer_target_error(&self, id: WidgetId) -> (error: Option<PointerTargetError>)
        ensures
            error == self.pointer_obstacle(id),
    {
        match self.get_widget(id) {
            None => Some(PointerTargetError::NotFound),
            Some(widget) => {
                let hit = match widget.hit_at_center {
                    Some(hit) => hit == id,
                    None => false,
                };
                if !widget.accepts_pointer_interaction {
                    Some(PointerTargetError::NoPointerEvents)
                } else if widget.is_disabled {
                    Some(PointerTargetError::Disabled)
                } else if widget.is_stashed || !hit {
                    Some(PointerTargetError::NotVisible)
                } else {
                    None
                }
            },
        }
    }

    /// Tells why a widget cannot be focused.
    pub fn focus_error(&self, id: WidgetId) -> (error: Option<FocusError>)
        ensures
            error == self.focus_obstacle(id),
    {
        match self.get_widget(id) {
            None => Some(FocusError::NotFound),
            Some(widget) => if widget.is_stashed {
                Some(FocusError::Stashed)
            } else if widget.is_disabled {
                Some(FocusError::Disabled)
            } else {
                None
            },
        }
    }
}

/// A reason why the pointer cannot be put on a widget.
#[derive(Clone, Copy, Debug, PartialEq, Eq, Structural)]
pub enum PointerTargetError {
    /// The tree has no such widget.
    NotFound,
    /// The widget does not accept pointer events.
    NoPointerEvents,
    /// The widget is disabled.
    Disabled,
    /// The widget is stashed, covered or scrolled out of view.
    NotVisible,
}

impl PointerTargetError {
    /// The words for the reason, where `id` is how the widget's id is written.
    pub open spec fn text(self, id: Seq<char>) -> Seq<char> {
        match self {
            PointerTargetError::NotFound => "could not find widget "@ + id,
            PointerTargetError::NoPointerEvents => "Widget "@ + id
                + " doesn't accept pointer events"@,
            PointerTargetError::Disabled => "Widget "@ + id + " is disabled"@,
            PointerTargetError::NotVisible => "Widget "@ + id + " is not visible"@,
        }
    }

    /// Puts the reason into words, where `id` is how the widget's id is
    /// written.
    pub fn message(&self, id: &str) -> (message: String)
        ensures
            message@ == self.text(id@),
    {
        let end = match self {
            PointerTargetError::NotFound => {
                return "could not find widget ".to_owned().concat(id);
            },
            PointerTargetError::NoPointerEvents => " doesn't accept pointer events",
            PointerTargetError::Disabled => " is disabled",
            PointerTargetError::NotVisible => " is not visible",
        };
        "Widget ".to_owned().concat(id).concat(end)
    }
}

/// A reason why a widget cannot be focused.
#[derive(Clone, Copy, Debug, PartialEq, Eq, Structural)]
pub enum FocusError {
    /// The tree has no such widget.
    NotFound,
    /// The widget is stashed.
    Stashed,
    /// The widget is disabled.
    Disabled,
}

impl FocusError {
    /// The words for the reason, where `id` is how the widget's id is written.
    pub open spec fn text(self, id: Seq<char>) -> Seq<char> {
        "Cannot focus widget "@ + id + (match self {
            FocusError::NotFound => ": widget not found in tree"@,
            FocusError::Stashed => ": widget is stashed"@,
            FocusError::Disabled => ": widget is disabled"@,
        })
    }

    /// Puts the reason into words, where `id` is how the widget's id is
    /// written.
    pub fn message(&self, id: &str) -> (message: String)
        ensures
            message@ == self.text(id@),
    {
        let end = match self {
            FocusError::NotFound => ": widget not found in tree",
            FocusError::Stashed => ": widget is stashed",
            FocusError::Disabled => ": widget is disabled",
        };
        "Cannot focus widget ".to_owned().concat(id).concat(end)
    }
}

/// The widgets of several subtrees, one after the other.
pub open spec fn preorder_of_all(nodes: Seq<WidgetNode>) -> Seq<WidgetNode>
    decreases nodes,
{
    if nodes.len() == 0 {
        Seq::empty()
    } else {
        nodes[0].preorder() + preorder_of_all(nodes.drop_first())
    }
}

/// The values behind a sequence of references.
pub open spec fn unref(nodes: Seq<&WidgetNode>) -> Seq<WidgetNode> {
    nodes.map_values(|node: &WidgetNode| *node)
}

/// The first widget of a sequence that has the given id.
pub open spec fn first_with_id(nodes: Seq<WidgetNode>, id: WidgetId) -> Option<WidgetNode>
    decreases nodes.len(),
{
    if nodes.len() == 0 {
        None
    } else if nodes[0].id == id {
        Some(nodes[0])
    } else {
        first_with_id(nodes.drop_first(), id)
    }
}

proof fn lemma_first_with_id_of_sum(a: Seq<WidgetNode>, b: Seq<WidgetNode>, id: WidgetId)
    ensures
        first_with_id(a + b, id) == (match first_with_id(a, id) {
            Some(widget) => Some(widget),
            None => first_with_id(b, id),
        }),
    decreases a.len(),
{
    if a.len() == 0 {
        assert(a + b == b);
    } else {
        assert((a + b).drop_first() == a.drop_first() + b);
        if a[0].id != id {
            lemma_first_with_id_of_sum(a.drop_first(), b, id);
        }
    }
}

/// A widget is found exactly if the tree has one with its id, and the one that is
/// found comes first among those.
pub proof fn law_lookup(root: RenderRoot, id: WidgetId)
    ensures
        ({
            let all = root.root.preorder();
            match root.lookup(id) {
                Some(widget) => exists|i: int|
                    0 <= i < all.len() && #[trigger] all[i] == widget && widget.id == id && (
                    forall|j: int| 0 <= j < i ==> (#[trigger] all[j]).id != id),
                None => forall|i: int| 0 <= i < all.len() ==> (#[trigger] all[i]).id != id,
            }
        }),
{
    lemma_first_with_id(root.root.preorder(), id);
}

proof fn lemma_first_with_id(nodes: Seq<WidgetNode>, id: WidgetId)
    ensures
        match first_with_id(nodes, id) {
            Some(widget) => exists|i: int|
                0 <= i < nodes.len() && #[trigger] nodes[i] == widget && widget.id == id && (
                forall|j: int| 0 <= j < i ==> (#[trigger] nodes[j]).id != id),
            None => forall|i: int| 0 <= i < nodes.len() ==> (#[trigger] nodes[i]).id != id,
        },
    decreases nodes.len(),
{
    if nodes.len() > 0 && nodes[0].id != id {
        let later = nodes.drop_first();
        lemma_first_with_id(later, id);
        assert forall|i: int| 0 < i < nodes.len() implies (#[trigger] nodes[i]) == later[i - 1] by {
        }
        match first_with_id(later, id) {
            Some(widget) => {
                let i = choose|i: int|
                    0 <= i < later.len() && #[trigger] later[i] == widget && widget.id == id && (
                    forall|j: int| 0 <= j < i ==> (#[trigger] later[j]).id != id);
                assert(nodes[i + 1] == widget);
            },
            None => {},
        }
    }
}

/// A visitor of the tree meets the root first and meets every widget that can be
/// found.
pub proof fn law_inspection_is_complete(root: RenderRoot, id: WidgetId)
    ensures
        root.root.preorder().len() > 0,
        root.root.preorder()[0] == root.root,
        root.lookup(id) matches Some(widget) ==> root.root.preorder().contains(widget),
{
    law_lookup(root, id);
}

/// Only a widget that accepts pointer events, is enabled, is shown, and is what
/// the pointer would be over at its center, can be the target of the pointer.
pub proof fn law_pointer_targets_are_reachable(root: RenderRoot, id: WidgetId)
    ensures
        root.pointer_obstacle(id) is None <==> (root.lookup(id) matches Some(widget)
            && widget.accepts_pointer_interaction && !widget.is_disabled && !widget.is_stashed
            && widget.hit_at_center == Some(id)),
{
}

/// Only a widget of the tree that is neither stashed nor disabled can be focused.
pub proof fn law_focus_targets_are_active(root: RenderRoot, id: WidgetId)
    ensures
        root.focus_obstacle(id) is None <==> (root.lookup(id) matches Some(widget)
            && !widget.is_stashed && !widget.is_disabled),
{
}

/// To visit several subtrees is to visit them one after the other, however they
/// are divided; to visit one is to meet its root and then to visit the subtrees of
/// its children.
pub proof fn law_subtrees_are_visited_in_turn(
    first: Seq<WidgetNode>,
    second: Seq<WidgetNode>,
    node: WidgetNode,
)
    ensures
        preorder_of_all(first + second) == preorder_of_all(first) + preorder_of_all(second),
        preorder_of_all(seq![node]) == node.preorder(),
        preorder_of_all(Seq::empty()).len() == 0,
        node.preorder() == seq![node] + preorder_of_all(node.children@),
    decreases first.len(),
{
    assert(seq![node].drop_first() == Seq::<WidgetNode>::empty());
    assert(preorder_of_all(seq![node]) == node.preorder() + preorder_of_all(
        Seq::<WidgetNode>::empty(),
    ));
    if first.len() == 0 {
        assert(first + second == second);
    } else {
        assert((first + second).drop_first() == first.drop_first() + second);
        law_subtrees_are_visited_in_turn(first.drop_first(), second, node);
    }
}

/// Every child of a widget is visited with its whole subtree: after the widget,
/// after all children before it and before all children behind it. Nothing else
/// is visited between them.
pub proof fn law_every_child_is_visited(node: WidgetNode, i: int)
    requires
        0 <= i < node.children@.len(),
    ensures
        ({
            let before = preorder_of_all(node.children@.take(i));
            let subtree = node.children@[i].preorder();
            let behind = preorder_of_all(node.children@.skip(i + 1));
            &&& node.preorder() == seq![node] + before + subtree + behind
            &&& node.preorder().len() == 1 + before.len() + subtree.len() + behind.len()
            &&& subtree[0] == node.children@[i]
            &&& before.len() >= i
            &&& behind.len() >= node.children@.len() - i - 1
        }),
{
    let children = node.children@;
    let before = children.take(i);
    let child = seq![children[i]];
    let behind = children.skip(i + 1);
    assert(children == before + (child + behind));
    law_subtrees_are_visited_in_turn(before, child + behind, children[i]);
    law_subtrees_are_visited_in_turn(child, behind, children[i]);
    lemma_no_subtree_is_empty(before);
    lemma_no_subtree_is_empty(behind);
    assert(node.preorder() =~= seq![node] + preorder_of_all(before) + children[i].preorder()
        + preorder_of_all(behind));
}

proof fn lemma_no_subtree_is_empty(nodes: Seq<WidgetNode>)
    ensures
        preorder_of_all(nodes).len() >= nodes.len(),
    decreases nodes.len(),
{
    if nodes.len() > 0 {
        lemma_no_subtree_is_empty(nodes.drop_first());
        assert(nodes[0].preorder().len() >= 1);
    }
}

/// Every child of a widget that a visitor of the tree meets is met too, and can be
/// found by its id.
pub proof fn law_every_child_can_be_found(root: RenderRoot, parent: WidgetNode, i: int)
    requires
        root.root.preorder().contains(parent),
        0 <= i < parent.children@.len(),
    ensures
        root.root.preorder().contains(parent.children@[i]),
        root.lookup(parent.children@[i].id) matches Some(widget) && widget.id
            == parent.children@[i].id,
{
    let all = root.root.preorder();
    let child = parent.children@[i];
    lemma_children_are_met(root.root, parent, i);
    law_lookup(root, child.id);
    let k = choose|k: int| 0 <= k < all.len() && all[k] == child;
    assert(all[k].id == child.id);
}

proof fn lemma_children_are_met(node: WidgetNode, parent: WidgetNode, i: int)
    requires
        node.preorder().contains(parent),
        0 <= i < parent.children@.len(),
    ensures
        node.preorder().contains(parent.children@[i]),
    decreases node,
{
    let child = parent.children@[i];
    let below = preorder_of_all(node.children@);
    assert(node.preorder() == seq![node] + below);
    if parent == node {
        law_every_child_is_visited(node, i);
        let before = preorder_of_all(node.children@.take(i));
        assert(node.preorder()[1int + before.len()] == child);
    } else {
        let k = choose|k: int| 0 <= k < node.preorder().len() && node.preorder()[k] == parent;
        assert(below[k - 1] == parent);
        assert(below.contains(parent));
        lemma_children_of_all_are_met(node.children@, parent, i);
        let m = choose|m: int| 0 <= m < below.len() && below[m] == child;
        assert(node.preorder()[m + 1] == child);
    }
}

proof fn lemma_children_of_all_are_met(nodes: Seq<WidgetNode>, parent: WidgetNode, i: int)
    requires
        preorder_of_all(nodes).contains(parent),
        0 <= i < parent.children@.len(),
    ensures
        preorder_of_all(nodes).contains(parent.children@[i]),
    decreases nodes,
{
    let child = parent.children@[i];
    let all = preorder_of_all(nodes);
    if nodes.len() > 0 {
        let first = nodes[0].preorder();
        let later = preorder_of_all(nodes.drop_first());
        assert(all == first + later);
        let k = choose|k: int| 0 <= k < all.len() && all[k] == parent;
        if k < first.len() {
            assert(first[k] == parent);
            lemma_children_are_met(nodes[0], parent, i);
            let m = choose|m: int| 0 <= m < first.len() && first[m] == child;
            assert(all[m] == child);
        } else {
            assert(later[k - first.len()] == parent);
            lemma_children_of_all_are_met(nodes.drop_first(), parent, i);
            let m = choose|m: int| 0 <= m < later.len() && later[m] == child;
            assert(all[m + first.len()] == child);
        }
    }
}

/// A list of references stands for the widgets behind them, in the same order.
pub proof fn law_references_stand_for_widgets(nodes: Seq<&WidgetNode>, i: int)
    requires
        0 <= i < nodes.len(),
    ensures
        unref(nodes).len() == nodes.len(),
        unref(nodes)[i] == *nodes[i],
{
}

/// An id stands for the widget that is found by it, and no id for no widget.
pub proof fn law_an_id_stands_for_its_widget(root: RenderRoot, id: WidgetId)
    ensures
        root.target(Some(id)) == root.lookup(id),
        root.target(None) is None,
{
}

/// The reason why the pointer cannot be put on a widget: it is not in the tree;
/// else it does not accept pointer events; else it is disabled; else it is stashed
/// or something else is at its center.
pub proof fn law_pointer_reasons(root: RenderRoot, id: WidgetId)
    ensures
        root.lookup(id) is None <==> root.pointer_obstacle(id) == Some(
            PointerTargetError::NotFound,
        ),
        root.lookup(id) matches Some(widget) ==> {
            let accepts = widget.accepts_pointer_interaction;
            let hidden = widget.is_stashed || widget.hit_at_center != Some(id);
            &&& root.pointer_obstacle(id) == Some(PointerTargetError::NoPointerEvents)
                <==> !accepts
            &&& root.pointer_obstacle(id) == Some(PointerTargetError::Disabled) <==> accepts
                && widget.is_disabled
            &&& root.pointer_obstacle(id) == Some(PointerTargetError::NotVisible) <==> accepts
                && !widget.is_disabled && hidden
        },
{
}

/// The reason why a widget cannot be focused: it is not in the tree; else it is
/// stashed; else it is disabled.
pub proof fn law_focus_reasons(root: RenderRoot, id: WidgetId)
    ensures
        root.lookup(id) is None <==> root.focus_obstacle(id) == Some(FocusError::NotFound),
        root.lookup(id) matches Some(widget) ==> {
            &&& root.focus_obstacle(id) == Some(FocusError::Stashed) <==> widget.is_stashed
            &&& root.focus_obstacle(id) == Some(FocusError::Disabled) <==> !widget.is_stashed
                && widget.is_disabled
        },
{
}

/// A reason in words names the widget and says what stands in the way.
pub proof fn law_reasons_in_words(id: Seq<char>)
    ensures
        PointerTargetError::NotFound.text(id) == "could not find widget "@ + id,
        PointerTargetError::NoPointerEvents.text(id) == "Widget "@ + id
            + " doesn't accept pointer events"@,
        PointerTargetError::Disabled.text(id) == "Widget "@ + id + " is disabled"@,
        PointerTargetError::NotVisible.text(id) == "Widget "@ + id + " is not visible"@,
        FocusError::NotFound.text(id) == "Cannot focus widget "@ + id
            + ": widget not found in tree"@,
        FocusError::Stashed.text(id) == "Cannot focus widget "@ + id + ": widget is stashed"@,
        FocusError::Disabled.text(id) == "Cannot focus widget "@ + id + ": widget is disabled"@,
{
}

} // verus!
