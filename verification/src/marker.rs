//! Markers: a point on the map, with an optional tooltip and handlers.

use crate::encode::{
    encode_bool, encode_required, encode_text, optional_truth, text_view, truth,
};
use crate::feature::{Feature, FeatureKind, FeatureView};
use crate::node::{
    group_select, lemma_names_differ, optional, present, push_binding, push_optional, required,
    Attribute, Event, EventBinding, Node, NodeView,
};
use vstd::prelude::*;

verus! {

/// A marker at a coordinate. The coordinate is kept as the decimal text that
/// the host receives.
pub struct Marker<H> {
    lat: String,
    lng: String,
    tooltip: Option<String>,
    tooltip_open: Option<bool>,
    on_click: Option<H>,
    on_mouseover: Option<H>,
    on_mouseout: Option<H>,
}

/// The mathematical content of a marker.
pub struct MarkerView<H> {
    pub lat: Seq<char>,
    pub lng: Seq<char>,
    pub tooltip: Option<Seq<char>>,
    pub tooltip_open: Option<bool>,
    pub on_click: Option<H>,
    pub on_mouseover: Option<H>,
    pub on_mouseout: Option<H>,
}

impl<H> MarkerView<H> {
    /// A marker with no optional field set.
    pub open spec fn new(lat: Seq<char>, lng: Seq<char>) -> Self {
        MarkerView {
            lat,
            lng,
            tooltip: None,
            tooltip_open: None,
            on_click: None,
            on_mouseover: None,
            on_mouseout: None,
        }
    }

    /// The same with the text of the tooltip set.
    pub open spec fn with_tooltip(self, value: Seq<char>) -> Self {
        MarkerView { tooltip: Some(value), ..self }
    }

    /// The same with the visibility of the tooltip set.
    pub open spec fn with_tooltip_open(self, value: bool) -> Self {
        MarkerView { tooltip_open: Some(value), ..self }
    }

    /// The same with the handler of a click set.
    pub open spec fn with_on_click(self, handler: H) -> Self {
        MarkerView { on_click: Some(handler), ..self }
    }

    /// The same with the handler of the pointer entering set.
    pub open spec fn with_on_mouseover(self, handler: H) -> Self {
        MarkerView { on_mouseover: Some(handler), ..self }
    }

    /// The same with the handler of the pointer leaving set.
    pub open spec fn with_on_mouseout(self, handler: H) -> Self {
        MarkerView { on_mouseout: Some(handler), ..self }
    }

    /// The node that the marker renders.
    pub open spec fn render(self) -> NodeView<H> {
        NodeView {
            tag: "marker-kind"@,
            key: None,
            attrs: required("lat"@, self.lat) + required("lng"@, self.lng) + optional(
                "tooltip"@,
                self.tooltip,
            ) + optional("tooltip-open"@, optional_truth(self.tooltip_open)),
            events: optional(Event::Click, self.on_click) + optional(
                Event::PointerEnter,
                self.on_mouseover,
            ) + optional(Event::PointerLeave, self.on_mouseout),
            children: Seq::empty(),
        }
    }
}

impl<H> View for Marker<H> {
    type V = MarkerView<H>;

    closed spec fn view(&self) -> MarkerView<H> {
        MarkerView {
            lat: self.lat@,
            lng: self.lng@,
            tooltip: text_view(self.tooltip),
            tooltip_open: self.tooltip_open,
            on_click: self.on_click,
            on_mouseover: self.on_mouseover,
            on_mouseout: self.on_mouseout,
        }
    }
}

/// A marker at the given coordinate, with no optional field set.
pub fn marker<H>(lat: &str, lng: &str) -> (m: Marker<H>)
    ensures
        m@ == MarkerView::<H>::new(lat@, lng@),
{
    Marker {
        lat: lat.to_owned(),
        lng: lng.to_owned(),
        tooltip: None,
        tooltip_open: None,
        on_click: None,
        on_mouseover: None,
        on_mouseout: None,
    }
}

impl<H> Marker<H> {
    /// Sets the text of the tooltip.
    pub fn tooltip(self, value: &str) -> (r: Self)
        ensures
            r@ == self@.with_tooltip(value@),
    {
        let mut m = self;
        m.tooltip = Some(value.to_owned());
        m
    }

    /// Sets whether the tooltip is shown without the pointer over the marker.
    pub fn tooltip_open(self, value: bool) -> (r: Self)
        ensures
            r@ == self@.with_tooltip_open(value),
    {
        let mut m = self;
        m.tooltip_open = Some(value);
        m
    }

    /// Sets the handler of a click on the marker.
    pub fn on_click(self, handler: H) -> (r: Self)
        ensures
            r@ == self@.with_on_click(handler),
    {
        let mut m = self;
        m.on_click = Some(handler);
        m
    }

    /// Sets the handler of the pointer entering the marker.
    pub fn on_mouseover(self, handler: H) -> (r: Self)
        ensures
            r@ == self@.with_on_mouseover(handler),
    {
        let mut m = self;
        m.on_mouseover = Some(handler);
        m
    }

    /// Sets the handler of the pointer leaving the marker.
    pub fn on_mouseout(self, handler: H) -> (r: Self)
        ensures
            r@ == self@.with_on_mouseout(handler),
    {
        let mut m = self;
        m.on_mouseout = Some(handler);
        m
    }
}

impl<H> Feature<H> for Marker<H> {
    open spec fn feature_view(&self) -> FeatureView<H> {
        FeatureView::Marker(self@)
    }

    fn into_node<'a>(&'a self) -> (node: Node<'a, H>) {
        let mut attrs: Vec<Attribute> = Vec::new();
        push_optional(&mut attrs, "lat", encode_required(self.lat.as_str()));
        push_optional(&mut attrs, "lng", encode_required(self.lng.as_str()));
        push_optional(&mut attrs, "tooltip", encode_text(&self.tooltip));
        push_optional(&mut attrs, "tooltip-open", encode_bool(self.tooltip_open));
        let mut events: Vec<EventBinding<'a, H>> = Vec::new();
        push_binding(&mut events, Event::Click, &self.on_click);
        push_binding(&mut events, Event::PointerEnter, &self.on_mouseover);
        push_binding(&mut events, Event::PointerLeave, &self.on_mouseout);
        let node = Node { tag: "marker-kind", key: None, attrs, events, children: Vec::new() };
        assert(node@.attrs =~= self@.render().attrs);
        assert(node@.events =~= self@.render().events);
        assert(node@.children =~= self@.render().children);
        node
    }

    fn into_kind(self) -> (kind: FeatureKind<H>) {
        FeatureKind::Marker(self)
    }
}

/// A marker renders each field under the name of the field and once: a required
/// field always, an optional field where it is set, and nothing under any other name.
pub proof fn lemma_marker_attributes<H>(m: MarkerView<H>, name: Seq<char>)
    ensures
        m.render().values("lat"@) == seq![m.lat],
        m.render().values("lng"@) == seq![m.lng],
        m.render().values("tooltip"@) == present(m.tooltip),
        m.render().values("tooltip-open"@) == present(optional_truth(m.tooltip_open)),
        ({
            &&& name != "lat"@
            &&& name != "lng"@
            &&& name != "tooltip"@
            &&& name != "tooltip-open"@
        }) ==> m.render().values(name).len() == 0,
{
    broadcast use group_select;
    lemma_names_differ();
    assert(m.render().values("lat"@) =~= seq![m.lat]);
    assert(m.render().values("lng"@) =~= seq![m.lng]);
    assert(m.render().values("tooltip"@) =~= present(m.tooltip));
    assert(m.render().values("tooltip-open"@) =~= present(optional_truth(m.tooltip_open)));
}

/// A marker binds each handler that is set to the event of the handler and once, and
/// nothing to an event whose handler is unset.
pub proof fn lemma_marker_handlers<H>(m: MarkerView<H>)
    ensures
        m.render().handlers(Event::Click) == present(m.on_click),
        m.render().handlers(Event::PointerEnter) == present(m.on_mouseover),
        m.render().handlers(Event::PointerLeave) == present(m.on_mouseout),
{
    broadcast use group_select;
    assert(m.render().handlers(Event::Click) =~= present(m.on_click));
    assert(m.render().handlers(Event::PointerEnter) =~= present(m.on_mouseover));
    assert(m.render().handlers(Event::PointerLeave) =~= present(m.on_mouseout));
}

/// A marker leaves out what is not set: an optional field that is unset has no
/// attribute of its name, and a handler that is unset no binding. With no optional
/// field set, the node holds its coordinate and nothing else.
pub proof fn lemma_marker_omits_unset_fields<H>(m: MarkerView<H>)
    ensures
        m.tooltip is None ==> m.render().values("tooltip"@).len() == 0,
        m.tooltip_open is None ==> m.render().values("tooltip-open"@).len() == 0,
        m.on_click is None ==> m.render().handlers(Event::Click).len() == 0,
        m.on_mouseover is None ==> m.render().handlers(Event::PointerEnter).len() == 0,
        m.on_mouseout is None ==> m.render().handlers(Event::PointerLeave).len() == 0,
        m == MarkerView::<H>::new(m.lat, m.lng) ==> m.render() == (NodeView::<H> {
            tag: "marker-kind"@,
            key: None,
            attrs: seq![("lat"@, m.lat), ("lng"@, m.lng)],
            events: Seq::empty(),
            children: Seq::empty(),
        }),
{
    lemma_marker_attributes(m, Seq::empty());
    lemma_marker_handlers(m);
    if m == MarkerView::<H>::new(m.lat, m.lng) {
        assert(m.render().attrs =~= seq![("lat"@, m.lat), ("lng"@, m.lng)]);
        assert(m.render().events =~= Seq::empty());
    }
}

/// Setting an optional field of a marker a second time replaces the first value: the
/// marker is as if the second value alone had been set, and its node carries the
/// second value once and the first not at all.
pub proof fn lemma_marker_last_write_wins<H>(
    m: MarkerView<H>,
    first_text: Seq<char>,
    second_text: Seq<char>,
    first_flag: bool,
    second_flag: bool,
    first_handler: H,
    second_handler: H,
)
    ensures
        m.with_tooltip(first_text).with_tooltip(second_text) == m.with_tooltip(second_text),
        m.with_tooltip(first_text).with_tooltip(second_text).render().values("tooltip"@)
            == seq![second_text],
        m.with_tooltip_open(first_flag).with_tooltip_open(second_flag)
            == m.with_tooltip_open(second_flag),
        m.with_tooltip_open(first_flag).with_tooltip_open(second_flag)
            .render().values("tooltip-open"@)
            == seq![truth(second_flag)],
        m.with_on_click(first_handler).with_on_click(second_handler)
            == m.with_on_click(second_handler),
        m.with_on_click(first_handler).with_on_click(second_handler).render().handlers(Event::Click)
            == seq![second_handler],
        m.with_on_mouseover(first_handler).with_on_mouseover(second_handler)
            == m.with_on_mouseover(second_handler),
        m.with_on_mouseover(first_handler).with_on_mouseover(second_handler)
            .render().handlers(Event::PointerEnter)
            == seq![second_handler],
        m.with_on_mouseout(first_handler).with_on_mouseout(second_handler)
            == m.with_on_mouseout(second_handler),
        m.with_on_mouseout(first_handler).with_on_mouseout(second_handler)
            .render().handlers(Event::PointerLeave)
            == seq![second_handler],
{
    lemma_marker_attributes(m.with_tooltip(first_text).with_tooltip(second_text), Seq::empty());
    lemma_marker_attributes(
        m.with_tooltip_open(first_flag).with_tooltip_open(second_flag),
        Seq::empty(),
    );
    lemma_marker_handlers(m.with_on_click(first_handler).with_on_click(second_handler));
    lemma_marker_handlers(m.with_on_mouseover(first_handler).with_on_mouseover(second_handler));
    lemma_marker_handlers(m.with_on_mouseout(first_handler).with_on_mouseout(second_handler));
}

} // verus!
