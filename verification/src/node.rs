//! Structural nodes: what a feature hands to the rendering host.
//!
//! A node is a tag, an optional identity key, the attributes that were
//! configured, the event bindings that were attached and the child nodes, all
//! in the order in which rendering emits them.

use crate::encode::text_view;
use vstd::prelude::*;

verus! {

/// An interaction of the user with a feature on the map.
#[derive(Clone, Copy, Debug, PartialEq, Eq, Structural)]
pub enum Event {
    /// The feature was clicked.
    Click,
    /// The pointer entered the feature.
    PointerEnter,
    /// The pointer left the feature.
    PointerLeave,
}

/// One attribute of a node: its name and its encoded value.
#[derive(Debug)]
pub struct Attribute {
    pub name: &'static str,
    pub value: String,
}

impl View for Attribute {
    type V = (Seq<char>, Seq<char>);

    open spec fn view(&self) -> (Seq<char>, Seq<char>) {
        (self.name@, self.value@)
    }
}

/// A handler attached to an event. The handler stays with the feature that it
/// was given to; the node refers to it.
pub struct EventBinding<'a, H> {
    pub event: Event,
    pub handler: &'a H,
}

impl<'a, H> View for EventBinding<'a, H> {
    type V = (Event, H);

    open spec fn view(&self) -> (Event, H) {
        (self.event, *self.handler)
    }
}

/// A structural node.
pub struct Node<'a, H> {
    pub tag: &'static str,
    pub key: Option<String>,
    pub attrs: Vec<Attribute>,
    pub events: Vec<EventBinding<'a, H>>,
    pub children: Vec<Node<'a, H>>,
}

/// The mathematical content of a node.
pub struct NodeView<H> {
    pub tag: Seq<char>,
    pub key: Option<Seq<char>>,
    pub attrs: Seq<(Seq<char>, Seq<char>)>,
    pub events: Seq<(Event, H)>,
    pub children: Seq<NodeView<H>>,
}

/// The attributes of a node as pairs of name and value, in order.
pub open spec fn attrs_view(attrs: Seq<Attribute>) -> Seq<(Seq<char>, Seq<char>)> {
    Seq::new(attrs.len(), |i: int| attrs[i]@)
}

/// The bindings of a node as pairs of event and handler, in order.
pub open spec fn events_view<H>(events: Seq<EventBinding<'_, H>>) -> Seq<(Event, H)> {
    Seq::new(events.len(), |i: int| events[i]@)
}

/// The content of each node of a sequence, in order.
pub open spec fn nodes_view<H>(nodes: Seq<Node<'_, H>>) -> Seq<NodeView<H>>
    decreases nodes,
{
    Seq::new(
        nodes.len(),
        |i: int|
            if 0 <= i < nodes.len() {
                node_view(nodes[i])
            } else {
                arbitrary()
            },
    )
}

/// The content of a node.
pub open spec fn node_view<H>(node: Node<'_, H>) -> NodeView<H>
    decreases node,
{
    NodeView {
        tag: node.tag@,
        key: text_view(node.key),
        attrs: attrs_view(node.attrs@),
        events: events_view(node.events@),
        children: nodes_view(node.children@),
    }
}

impl<'a, H> View for Node<'a, H> {
    type V = NodeView<H>;

    open spec fn view(&self) -> NodeView<H> {
        node_view(*self)
    }
}

/// The values that `pairs` holds under `key`, in order.
pub open spec fn select<K, V>(pairs: Seq<(K, V)>, key: K) -> Seq<V>
    decreases pairs.len(),
{
    if pairs.len() == 0 {
        Seq::empty()
    } else if pairs[0].0 == key {
        seq![pairs[0].1] + select(pairs.skip(1), key)
    } else {
        select(pairs.skip(1), key)
    }
}

/// The height of the deepest of `nodes`, zero where there is none.
pub open spec fn deepest<H>(nodes: Seq<NodeView<H>>) -> nat
    decreases nodes,
{
    if nodes.len() == 0 {
        0
    } else {
        let rest = deepest(nodes.drop_last());
        let last = depth(nodes.last());
        if last > rest {
            last
        } else {
            rest
        }
    }
}

/// The number of nodes on the longest path from `node` down to a leaf.
pub open spec fn depth<H>(node: NodeView<H>) -> nat
    decreases node,
{
    1 + deepest(node.children)
}

impl<H> NodeView<H> {
    /// The values of the attributes called `name`, in order: none where the
    /// node has no such attribute.
    pub open spec fn values(self, name: Seq<char>) -> Seq<Seq<char>> {
        select(self.attrs, name)
    }

    /// The handlers that the node binds to `event`, in order: none where the
    /// node has no such binding.
    pub open spec fn handlers(self, event: Event) -> Seq<H> {
        select(self.events, event)
    }
}

/// An optional value as a sequence: the value alone where it is set, nothing
/// where it is not.
pub open spec fn present<T>(value: Option<T>) -> Seq<T> {
    match value {
        Some(v) => seq![v],
        None => Seq::empty(),
    }
}

/// What a required field renders: its value under its name.
pub open spec fn required<K, V>(name: K, value: V) -> Seq<(K, V)> {
    seq![(name, value)]
}

/// What an optional field renders: its value under its name where it is set,
/// nothing where it is not.
pub open spec fn optional<K, V>(name: K, value: Option<V>) -> Seq<(K, V)> {
    match value {
        Some(v) => seq![(name, v)],
        None => Seq::empty(),
    }
}

/// The names of the attributes, by what tells them apart: no two of them
/// agree in their length and in their first two characters.
pub proof fn lemma_names_differ()
    ensures
        "lat"@.len() == 3 && "lat"@[0] == 'l' && "lat"@[1] == 'a',
        "lng"@.len() == 3 && "lng"@[0] == 'l' && "lng"@[1] == 'n',
        "zoom"@.len() == 4 && "zoom"@[0] == 'z' && "zoom"@[1] == 'o',
        "fill"@.len() == 4 && "fill"@[0] == 'f' && "fill"@[1] == 'i',
        "data"@.len() == 4 && "data"@[0] == 'd' && "data"@[1] == 'a',
        "radius"@.len() == 6 && "radius"@[0] == 'r' && "radius"@[1] == 'a',
        "stroke"@.len() == 6 && "stroke"@[0] == 's' && "stroke"@[1] == 't',
        "tooltip"@.len() == 7 && "tooltip"@[0] == 't' && "tooltip"@[1] == 'o',
        "zoom-to-fit"@.len() == 11 && "zoom-to-fit"@[0] == 'z' && "zoom-to-fit"@[1] == 'o',
        "tooltip-open"@.len() == 12 && "tooltip-open"@[0] == 't' && "tooltip-open"@[1] == 'o',
        "stroke-width"@.len() == 12 && "stroke-width"@[0] == 's' && "stroke-width"@[1] == 't',
        "fill-opacity"@.len() == 12 && "fill-opacity"@[0] == 'f' && "fill-opacity"@[1] == 'i',
        "stroke-dasharray"@.len() == 16 && "stroke-dasharray"@[0] == 's' && "stroke-dasharray"@[1]
            == 't',
{
    reveal_strlit("lat");
    reveal_strlit("lng");
    reveal_strlit("zoom");
    reveal_strlit("fill");
    reveal_strlit("data");
    reveal_strlit("radius");
    reveal_strlit("stroke");
    reveal_strlit("tooltip");
    reveal_strlit("zoom-to-fit");
    reveal_strlit("tooltip-open");
    reveal_strlit("stroke-width");
    reveal_strlit("fill-opacity");
    reveal_strlit("stroke-dasharray");
}

/// What two runs of pairs hold under a key is what the first run holds under
/// it, then what the second does.
pub broadcast proof fn lemma_select_concat<K, V>(a: Seq<(K, V)>, b: Seq<(K, V)>, key: K)
    ensures
        #[trigger] select(a + b, key) == select(a, key) + select(b, key),
    decreases a.len(),
{
    if a.len() == 0 {
        assert(a + b =~= b);
        assert(select(a, key) + select(b, key) =~= select(b, key));
    } else {
        assert((a + b)[0] == a[0]);
        assert((a + b).skip(1) =~= a.skip(1) + b);
        lemma_select_concat(a.skip(1), b, key);
        assert(select(a + b, key) =~= select(a, key) + select(b, key));
    }
}

/// A required field is held under its own name, and under no other.
pub broadcast proof fn lemma_select_required<K, V>(name: K, value: V, key: K)
    ensures
        #[trigger] select(required(name, value), key) == (if name == key {
            seq![value]
        } else {
            Seq::empty()
        }),
{
    let pairs = required(name, value);
    assert(select(pairs.skip(1), key) =~= Seq::empty());
    if name == key {
        assert(select(pairs, key) =~= seq![value]);
    }
}

/// An optional field is held under its own name where it is set, and nowhere else.
pub broadcast proof fn lemma_select_optional<K, V>(name: K, value: Option<V>, key: K)
    ensures
        #[trigger] select(optional(name, value), key) == (if name == key {
            present(value)
        } else {
            Seq::empty()
        }),
{
    if value is Some {
        let pairs = optional(name, value);
        assert(select(pairs.skip(1), key) =~= Seq::empty());
        if name == key {
            assert(select(pairs, key) =~= present(value));
        }
    }
}

/// What a node holds under a name or an event, piece by piece.
pub broadcast group group_select {
    lemma_select_concat,
    lemma_select_required,
    lemma_select_optional,
}

/// Appends an attribute, if the encoder has yielded a value for it.
pub(crate) fn push_optional(attrs: &mut Vec<Attribute>, name: &'static str, value: Option<String>)
    ensures
        attrs_view(final(attrs)@) == attrs_view(old(attrs)@) + optional(name@, text_view(value)),
{
    match value {
        Some(value) => {
            attrs.push(Attribute { name, value });
        },
        None => {},
    }
    assert(attrs_view(attrs@) =~= attrs_view(old(attrs)@) + optional(name@, text_view(value)));
}

/// Appends the binding of an optional handler, if the handler is set.
pub(crate) fn push_binding<'a, H>(
    events: &mut Vec<EventBinding<'a, H>>,
    event: Event,
    handler: &'a Option<H>,
)
    ensures
        events_view(final(events)@) == events_view(old(events)@) + optional(event, *handler),
{
    match handler {
        Some(handler) => {
            events.push(EventBinding { event, handler });
        },
        None => {},
    }
    assert(events_view(events@) =~= events_view(old(events)@) + optional(event, *handler));
}

} // verus!
