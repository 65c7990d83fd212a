//! The declarative element tree and its resolution into a renderable node
//! tree.
//!
//! A [`JSElement`] is the serializable description a producer hands over: a
//! container with optional style attributes and optional children, or a text
//! leaf. Resolution walks the tree depth-first and produces a [`RenderNode`]:
//! for a container, the ordered list of style operations to apply to a fresh
//! native builder, the resolved children in their original order, and the
//! resolved size, if any; for a text leaf, the text itself. The unverified
//! shell around this crate replays a [`RenderNode`] against the concrete
//! runtime's builder objects, one operation after the other.

use vstd::prelude::*;

use crate::color::Color;
use crate::color::ResolvedColor;
use crate::length::Len;
use crate::length::ResolvedLength;

verus! {

broadcast use vstd::std_specs::vec::group_vec_axioms;

/// A declarative UI element: a container of styled content, or a text leaf.
///
/// Every attribute of a container is independently optional; an absent
/// attribute means "use the runtime default", not "apply a false or zero
/// value". Only a fixed subset of the attributes has an effect on
/// resolution; the rest belong to the declared vocabulary and are accepted
/// but deliberately not applied (see [`JSElement::element`]).
#[derive(Debug)]
pub enum JSElement {
    Div {
        z_index: Option<u16>,
        full: Option<bool>,
        relative: Option<bool>,
        absolute: Option<bool>,
        block: Option<bool>,
        flex: Option<bool>,
        visible: Option<bool>,
        invisible: Option<bool>,
        overflow_hidden: Option<bool>,
        overflow_x_hidden: Option<bool>,
        overflow_y_hidden: Option<bool>,
        cursor: Option<bool>,
        cursor_default: Option<bool>,
        cursor_pointer: Option<bool>,
        cursor_text: Option<bool>,
        cursor_move: Option<bool>,
        cursor_not_allowed: Option<bool>,
        cursor_context_menu: Option<bool>,
        cursor_crosshair: Option<bool>,
        cursor_vertical_text: Option<bool>,
        cursor_alias: Option<bool>,
        cursor_copy: Option<bool>,
        cursor_no_drop: Option<bool>,
        cursor_grab: Option<bool>,
        cursor_grabbing: Option<bool>,
        bg: Option<Color>,
        justify_center: Option<bool>,
        items_center: Option<bool>,
        shadow_lg: Option<bool>,
        border: Option<bool>,
        border_color: Option<Color>,
        text_xl: Option<bool>,
        text_color: Option<Color>,
        size: Option<Len>,
        children: Option<Vec<JSElement>>,
    },
    Text(String),
}

/// One style operation to apply to a fresh native container builder.
/// Applications are monotonic: a later operation never undoes an earlier
/// one, so a container's styling is exactly its ordered operation list.
#[derive(Clone, Copy, Debug, PartialEq, Eq, Structural)]
pub enum StyleOp {
    /// Lay the container's content out with flex.
    Flex,
    /// Fill the container's background with the given color.
    Background(ResolvedColor),
    /// Center the content along the main axis.
    JustifyCenter,
    /// Center the content along the cross axis.
    ItemsCenter,
    /// Cast a large drop shadow.
    ShadowLg,
    /// Draw a border.
    Border,
    /// Color the border with the given color.
    BorderColor(ResolvedColor),
    /// Use the extra-large text size.
    TextXl,
    /// Color the text with the given color.
    TextColor(ResolvedColor),
}

/// A resolved, renderable node: everything the runtime needs to materialize
/// one element, with no semantic values left to interpret.
#[derive(Debug)]
pub enum RenderNode {
    /// A container: the style operations to apply to a fresh builder in
    /// order, then the resolved children to attach in order, then the
    /// resolved size to apply, if any.
    Container { ops: Vec<StyleOp>, children: Vec<RenderNode>, size: Option<ResolvedLength> },
    /// A text leaf, rendered with no styling of its own.
    Text(String),
}

/// The mathematical shape of a [`RenderNode`].
#[verifier::ext_equal]
pub enum RenderNodeView {
    Container { ops: Seq<StyleOp>, children: Seq<RenderNodeView>, size: Option<ResolvedLength> },
    Text(Seq<char>),
}

/// The view of a renderable node: operation lists and child lists become
/// sequences, text becomes its character sequence.
pub open spec fn node_view(n: RenderNode) -> RenderNodeView
    decreases n,
{
    match n {
        RenderNode::Container { ops, children, size } => RenderNodeView::Container {
            ops: ops@,
            children: nodes_view(children@),
            size: size,
        },
        RenderNode::Text(text) => RenderNodeView::Text(text@),
    }
}

/// The views of a sequence of renderable nodes, in order.
pub open spec fn nodes_view(ns: Seq<RenderNode>) -> Seq<RenderNodeView>
    decreases ns,
{
    Seq::new(
        ns.len(),
        |i: int|
            if 0 <= i < ns.len() {
                node_view(ns[i])
            } else {
                RenderNodeView::Text(Seq::empty())
            },
    )
}

impl View for RenderNode {
    type V = RenderNodeView;

    open spec fn view(&self) -> RenderNodeView {
        node_view(*self)
    }
}

/// The operation a present boolean flag contributes: the flag must be
/// present and true to have an effect.
pub open spec fn flag_op(flag: Option<bool>, op: StyleOp) -> Seq<StyleOp> {
    if flag == Some(true) {
        seq![op]
    } else {
        Seq::empty()
    }
}

/// The operation a present background color contributes.
pub open spec fn bg_op(c: Option<Color>) -> Seq<StyleOp> {
    match c {
        Some(col) => seq![StyleOp::Background(col.resolve_spec())],
        None => Seq::empty(),
    }
}

/// The operation a present border color contributes.
pub open spec fn border_color_op(c: Option<Color>) -> Seq<StyleOp> {
    match c {
        Some(col) => seq![StyleOp::BorderColor(col.resolve_spec())],
        None => Seq::empty(),
    }
}

/// The operation a present text color contributes.
pub open spec fn text_color_op(c: Option<Color>) -> Seq<StyleOp> {
    match c {
        Some(col) => seq![StyleOp::TextColor(col.resolve_spec())],
        None => Seq::empty(),
    }
}

/// The operations a container's attributes contribute, in the fixed
/// application order: flex, background, center-justify, center-align,
/// drop-shadow, border, border color, large text, text color. A present
/// color always contributes; a present flag contributes only when true.
pub open spec fn div_ops(
    flex: Option<bool>,
    bg: Option<Color>,
    justify_center: Option<bool>,
    items_center: Option<bool>,
    shadow_lg: Option<bool>,
    border: Option<bool>,
    border_color: Option<Color>,
    text_xl: Option<bool>,
    text_color: Option<Color>,
) -> Seq<StyleOp> {
    flag_op(flex, StyleOp::Flex) + bg_op(bg) + flag_op(justify_center, StyleOp::JustifyCenter)
        + flag_op(items_center, StyleOp::ItemsCenter) + flag_op(shadow_lg, StyleOp::ShadowLg)
        + flag_op(border, StyleOp::Border) + border_color_op(border_color) + flag_op(
        text_xl,
        StyleOp::TextXl,
    ) + text_color_op(text_color)
}

/// The resolutions of a sequence of child elements, one per child, in the
/// children's original order.
pub open spec fn resolve_children(cs: Seq<JSElement>) -> Seq<RenderNodeView>
    decreases cs,
{
    Seq::new(
        cs.len(),
        |i: int|
            if 0 <= i < cs.len() {
                cs[i].resolve_spec()
            } else {
                RenderNodeView::Text(Seq::empty())
            },
    )
}

impl JSElement {
    /// What resolution returns for every structurally valid element.
    ///
    /// A container resolves to its ordered operation list, its recursively
    /// resolved children in their original order, and its resolved size; a
    /// text leaf resolves to its text. Resolution is total: no structurally
    /// valid tree is rejected.
    pub open spec fn resolve_spec(self) -> RenderNodeView
        decreases self,
    {
        match self {
            JSElement::Div {
                flex,
                bg,
                justify_center,
                items_center,
                shadow_lg,
                border,
                border_color,
                text_xl,
                text_color,
                size,
                children,
                ..
            } => RenderNodeView::Container {
                ops: div_ops(
                    flex,
                    bg,
                    justify_center,
                    items_center,
                    shadow_lg,
                    border,
                    border_color,
                    text_xl,
                    text_color,
                ),
                children: match children {
                    Some(cs) => resolve_children(cs@),
                    None => Seq::empty(),
                },
                size: match size {
                    Some(l) => Some(l.resolve_spec()),
                    None => None,
                },
            },
            JSElement::Text(text) => RenderNodeView::Text(text@),
        }
    }

    /// Resolve this element, and transitively its children, into one
    /// renderable node.
    pub fn element(&self) -> (res: RenderNode)
        ensures
            res@ == self.resolve_spec(),
        decreases *self,
    {
        match self {
            JSElement::Div {
                flex,
                bg,
                justify_center,
                items_center,
                shadow_lg,
                border,
                border_color,
                text_xl,
                text_color,
                size,
                children,
                ..
            } => {
                let ops = div_style_ops(
                    flex,
                    bg,
                    justify_center,
                    items_center,
                    shadow_lg,
                    border,
                    border_color,
                    text_xl,
                    text_color,
                );
                let kids = match children {
                    Some(cs) => resolve_child_nodes(cs),
                    None => Vec::new(),
                };
                let resolved_size = match size {
                    Some(l) => Some(l.resolve()),
                    None => None,
                };
                let res = RenderNode::Container { ops, children: kids, size: resolved_size };
                proof {
                    assert(nodes_view(Seq::<RenderNode>::empty()) =~= Seq::<RenderNodeView>::empty());
                    assert(res@ =~= self.resolve_spec());
                }
                res
            },
            JSElement::Text(text) => {
                let res = RenderNode::Text(text.clone());
                assert(res@ =~= self.resolve_spec());
                res
            },
        }
    }
}

/// Append the operation a boolean flag contributes, if any.
fn push_flag(ops: &mut Vec<StyleOp>, flag: &Option<bool>, op: StyleOp)
    ensures
        final(ops)@ == old(ops)@ + flag_op(*flag, op),
{
    if let Some(true) = flag {
        ops.push(op);
    }
    proof {
        assert(ops@ =~= old(ops)@ + flag_op(*flag, op));
    }
}

/// Append the operation a background color contributes, if any.
fn push_bg(ops: &mut Vec<StyleOp>, c: &Option<Color>)
    ensures
        final(ops)@ == old(ops)@ + bg_op(*c),
{
    if let Some(col) = c {
        ops.push(StyleOp::Background(col.resolve()));
    }
    proof {
        assert(ops@ =~= old(ops)@ + bg_op(*c));
    }
}

/// Append the operation a border color contributes, if any.
fn push_border_color(ops: &mut Vec<StyleOp>, c: &Option<Color>)
    ensures
        final(ops)@ == old(ops)@ + border_color_op(*c),
{
    if let Some(col) = c {
        ops.push(StyleOp::BorderColor(col.resolve()));
    }
    proof {
        assert(ops@ =~= old(ops)@ + border_color_op(*c));
    }
}

/// Append the operation a text color contributes, if any.
fn push_text_color(ops: &mut Vec<StyleOp>, c: &Option<Color>)
    ensures
        final(ops)@ == old(ops)@ + text_color_op(*c),
{
    if let Some(col) = c {
        ops.push(StyleOp::TextColor(col.resolve()));
    }
    proof {
        assert(ops@ =~= old(ops)@ + text_color_op(*c));
    }
}

/// Build the operation list of one container from its applied attributes, in
/// the fixed application order.
fn div_style_ops(
    flex: &Option<bool>,
    bg: &Option<Color>,
    justify_center: &Option<bool>,
    items_center: &Option<bool>,
    shadow_lg: &Option<bool>,
    border: &Option<bool>,
    border_color: &Option<Color>,
    text_xl: &Option<bool>,
    text_color: &Option<Color>,
) -> (ops: Vec<StyleOp>)
    ensures
        ops@ == div_ops(
            *flex,
            *bg,
            *justify_center,
            *items_center,
            *shadow_lg,
            *border,
            *border_color,
            *text_xl,
            *text_color,
        ),
{
    let mut ops: Vec<StyleOp> = Vec::new();
    push_flag(&mut ops, flex, StyleOp::Flex);
    push_bg(&mut ops, bg);
    push_flag(&mut ops, justify_center, StyleOp::JustifyCenter);
    push_flag(&mut ops, items_center, StyleOp::ItemsCenter);
    push_flag(&mut ops, shadow_lg, StyleOp::ShadowLg);
    push_flag(&mut ops, border, StyleOp::Border);
    push_border_color(&mut ops, border_color);
    push_flag(&mut ops, text_xl, StyleOp::TextXl);
    push_text_color(&mut ops, text_color);
    proof {
        assert(Seq::<StyleOp>::empty() + flag_op(*flex, StyleOp::Flex) =~= flag_op(
            *flex,
            StyleOp::Flex,
        ));
        assert(ops@ == div_ops(
            *flex,
            *bg,
            *justify_center,
            *items_center,
            *shadow_lg,
            *border,
            *border_color,
            *text_xl,
            *text_color,
        ));
    }
    ops
}

/// Resolve each element of a child list, preserving the order.
fn resolve_child_nodes(cs: &Vec<JSElement>) -> (kids: Vec<RenderNode>)
    ensures
        nodes_view(kids@) == resolve_children(cs@),
    decreases *cs,
{
    let n = cs.len();
    let mut kids: Vec<RenderNode> = Vec::new();
    let mut i: usize = 0;
    while i < n
        invariant
            n == cs@.len(),
            i <= n,
            kids@.len() == i,
            forall|j: int| 0 <= j < i ==> node_view(kids@[j]) == cs@[j].resolve_spec(),
        decreases n - i,
    {
        let child = cs[i].element();
        kids.push(child);
        i = i + 1;
    }
    proof {
        assert(nodes_view(kids@) =~= resolve_children(cs@));
    }
    kids
}

/// Order preservation: resolving a sequence of child elements yields exactly
/// one resolved node per child, the i-th resolved node being the resolution
/// of the i-th child. This is how a container's children come out: in their
/// original order, none dropped, none added, none reordered.
pub proof fn lemma_children_order(cs: Seq<JSElement>)
    ensures
        resolve_children(cs).len() == cs.len(),
        forall|i: int| 0 <= i < cs.len() ==> resolve_children(cs)[i] == cs[i].resolve_spec(),
{
}

} // verus!
