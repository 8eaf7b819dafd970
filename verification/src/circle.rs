//! Circles: a disc around a point, with styling, an optional tooltip and handlers.

use crate::encode::{
    count_text, decimal, encode_bool, encode_int, encode_required, encode_text, optional_decimal,
    optional_truth, text_view, truth,
};
use crate::feature::{Feature, FeatureKind, FeatureView};
use crate::node::{
    group_select, lemma_names_differ, optional, present, push_binding, push_optional, required,
    Attribute, Event, EventBinding, Node, NodeView,
};
use vstd::prelude::*;

verus! {

/// A circle around a coordinate. The coordinate and the opacity of the fill
/// are kept as the decimal text that the host receives.
pub struct Circle<H> {
    lat: String,
    lng: String,
    radius: u32,
    stroke: Option<String>,
    stroke_width: Option<i32>,
    stroke_dasharray: Option<String>,
    fill: Option<String>,
    fill_opacity: Option<String>,
    zoom_to_fit: Option<bool>,
    tooltip: Option<String>,
    tooltip_open: Option<bool>,
    on_click: Option<H>,
    on_mouseover: Option<H>,
    on_mouseout: Option<H>,
}

/// The mathematical content of a circle.
pub struct CircleView<H> {
    pub lat: Seq<char>,
    pub lng: Seq<char>,
    pub radius: u32,
    pub stroke: Option<Seq<char>>,
    pub stroke_width: Option<i32>,
    pub stroke_dasharray: Option<Seq<char>>,
    pub fill: Option<Seq<char>>,
    pub fill_opacity: Option<Seq<char>>,
    pub zoom_to_fit: Option<bool>,
    pub tooltip: Option<Seq<char>>,
    pub tooltip_open: Option<bool>,
    pub on_click: Option<H>,
    pub on_mouseover: Option<H>,
    pub on_mouseout: Option<H>,
}

impl<H> CircleView<H> {
    /// A circle with no optional field set.
    pub open spec fn new(lat: Seq<char>, lng: Seq<char>, radius: u32) -> Self {
        CircleView {
            lat,
            lng,
            radius,
            stroke: None,
            stroke_width: None,
            stroke_dasharray: None,
            fill: None,
            fill_opacity: None,
            zoom_to_fit: None,
            tooltip: None,
            tooltip_open: None,
            on_click: None,
            on_mouseover: None,
            on_mouseout: None,
        }
    }

    /// The same with the color of the outline set.
    pub open spec fn with_stroke(self, color: Seq<char>) -> Self {
        CircleView { stroke: Some(color), ..self }
    }

    /// The same with the width of the outline set.
    pub open spec fn with_stroke_width(self, size: i32) -> Self {
        CircleView { stroke_width: Some(size), ..self }
    }

    /// The same with the dash pattern of the outline set.
    pub open spec fn with_stroke_dasharray(self, dasharray: Seq<char>) -> Self {
        CircleView { stroke_dasharray: Some(dasharray), ..self }
    }

    /// The same with the color of the fill set.
    pub open spec fn with_fill(self, color: Seq<char>) -> Self {
        CircleView { fill: Some(color), ..self }
    }

    /// The same with the opacity of the fill set.
    pub open spec fn with_fill_opacity(self, opacity: Seq<char>) -> Self {
        CircleView { fill_opacity: Some(opacity), ..self }
    }

    /// The same with the request to fit the view set.
    pub open spec fn with_zoom_to_fit(self) -> Self {
        CircleView { zoom_to_fit: Some(true), ..self }
    }

    /// The same with the text of the tooltip set.
    pub open spec fn with_tooltip(self, value: Seq<char>) -> Self {
        CircleView { tooltip: Some(value), ..self }
    }

    /// The same with the visibility of the tooltip set.
    pub open spec fn with_tooltip_open(self, value: bool) -> Self {
        CircleView { tooltip_open: Some(value), ..self }
    }

    /// The same with the handler of a click set.
    pub open spec fn with_on_click(self, handler: H) -> Self {
        CircleView { on_click: Some(handler), ..self }
    }

    /// The same with the handler of the pointer entering set.
    pub open spec fn with_on_mouseover(self, handler: H) -> Self {
        CircleView { on_mouseover: Some(handler), ..self }
    }

    /// The same with the handler of the pointer leaving set.
    pub open spec fn with_on_mouseout(self, handler: H) -> Self {
        CircleView { on_mouseout: Some(handler), ..self }
    }

    /// The attributes that the circle renders, in order.
    pub open spec fn render_attrs(self) -> Seq<(Seq<char>, Seq<char>)> {
        required("lat"@, self.lat) + required("lng"@, self.lng) + required(
            "radius"@,
            decimal(self.radius as int),
        ) + optional("stroke"@, self.stroke) + optional(
            "stroke-width"@,
            optional_decimal(self.stroke_width),
        ) + optional("stroke-dasharray"@, self.stroke_dasharray) + optional("fill"@, self.fill)
            + optional("fill-opacity"@, self.fill_opacity) + optional(
            "zoom-to-fit"@,
            optional_truth(self.zoom_to_fit),
        ) + optional("tooltip"@, self.tooltip) + optional(
            "tooltip-open"@,
            optional_truth(self.tooltip_open),
        )
    }

    /// The node that the circle renders.
    pub open spec fn render(self) -> NodeView<H> {
        NodeView {
            tag: "leafy-circle"@,
            key: None,
            attrs: self.render_attrs(),
            events: optional(Event::Click, self.on_click) + optional(
                Event::PointerEnter,
                self.on_mouseover,
            ) + optional(Event::PointerLeave, self.on_mouseout),
            children: Seq::empty(),
        }
    }
}

impl<H> View for Circle<H> {
    type V = CircleView<H>;

    closed spec fn view(&self) -> CircleView<H> {
        CircleView {
            lat: self.lat@,
            lng: self.lng@,
            radius: self.radius,
            stroke: text_view(self.stroke),
            stroke_width: self.stroke_width,
            stroke_dasharray: text_view(self.stroke_dasharray),
            fill: text_view(self.fill),
            fill_opacity: text_view(self.fill_opacity),
            zoom_to_fit: self.zoom_to_fit,
            tooltip: text_view(self.tooltip),
            tooltip_open: self.tooltip_open,
            on_click: self.on_click,
            on_mouseover: self.on_mouseover,
            on_mouseout: self.on_mouseout,
        }
    }
}

/// A circle of the given radius around the given coordinate, with no optional field set.
pub fn circle<H>(lat: &str, lng: &str, radius: u32) -> (c: Circle<H>)
    ensures
        c@ == CircleView::<H>::new(lat@, lng@, radius),
{
    Circle {
        lat: lat.to_owned(),
        lng: lng.to_owned(),
        radius,
        stroke: None,
        stroke_width: None,
        stroke_dasharray: None,
        fill: None,
        fill_opacity: None,
        zoom_to_fit: None,
        tooltip: None,
        tooltip_open: None,
        on_click: None,
        on_mouseover: None,
        on_mouseout: None,
    }
}

impl<H> Circle<H> {
    /// Sets the color of the outline.
    pub fn stroke(self, color: &str) -> (r: Self)
        ensures
            r@ == self@.with_stroke(color@),
    {
        let mut c = self;
        c.stroke = Some(color.to_owned());
        c
    }

    /// Sets the width of the outline.
    pub fn stroke_width(self, size: i32) -> (r: Self)
        ensures
            r@ == self@.with_stroke_width(size),
    {
        let mut c = self;
        c.stroke_width = Some(size);
        c
    }

    /// Sets the dash pattern of the outline.
    pub fn stroke_dasharray(self, dasharray: &str) -> (r: Self)
        ensures
            r@ == self@.with_stroke_dasharray(dasharray@),
    {
        let mut c = self;
        c.stroke_dasharray = Some(dasharray.to_owned());
        c
    }

    /// Sets the color of the fill.
    pub fn fill(self, color: &str) -> (r: Self)
        ensures
            r@ == self@.with_fill(color@),
    {
        let mut c = self;
        c.fill = Some(color.to_owned());
        c
    }

    /// Sets the opacity of the fill, given as its decimal text.
    pub fn fill_opacity(self, opacity: &str) -> (r: Self)
        ensures
            r@ == self@.with_fill_opacity(opacity@),
    {
        let mut c = self;
        c.fill_opacity = Some(opacity.to_owned());
        c
    }

    /// Asks the host to fit the view to the circle.
    pub fn zoom_to_fit(self) -> (r: Self)
        ensures
            r@ == self@.with_zoom_to_fit(),
    {
        let mut c = self;
        c.zoom_to_fit = Some(true);
        c
    }

    /// Sets the text of the tooltip.
    pub fn tooltip(self, value: &str) -> (r: Self)
        ensures
            r@ == self@.with_tooltip(value@),
    {
        let mut c = self;
        c.tooltip = Some(value.to_owned());
        c
    }

    /// Sets whether the tooltip is shown without the pointer over the circle.
    pub fn tooltip_open(self, value: bool) -> (r: Self)
        ensures
            r@ == self@.with_tooltip_open(value),
    {
        let mut c = self;
        c.tooltip_open = Some(value);
        c
    }

    /// Sets the handler of a click on the circle.
    pub fn on_click(self, handler: H) -> (r: Self)
        ensures
            r@ == self@.with_on_click(handler),
    {
        let mut c = self;
        c.on_click = Some(handler);
        c
    }

    /// Sets the handler of the pointer entering the circle.
    pub fn on_mouseover(self, handler: H) -> (r: Self)
        ensures
            r@ == self@.with_on_mouseover(handler),
    {
        let mut c = self;
        c.on_mouseover = Some(handler);
        c
    }

    /// Sets the handler of the pointer leaving the circle.
    pub fn on_mouseout(self, handler: H) -> (r: Self)
        ensures
            r@ == self@.with_on_mouseout(handler),
    {
        let mut c = self;
        c.on_mouseout = Some(handler);
        c
    }
}

impl<H> Feature<H> for Circle<H> {
    open spec fn feature_view(&self) -> FeatureView<H> {
        FeatureView::Circle(self@)
    }

    fn into_node<'a>(&'a self) -> (node: Node<'a, H>) {
        let mut attrs: Vec<Attribute> = Vec::new();
        push_optional(&mut attrs, "lat", encode_required(self.lat.as_str()));
        push_optional(&mut attrs, "lng", encode_required(self.lng.as_str()));
        let radius = count_text(self.radius);
        push_optional(&mut attrs, "radius", encode_required(radius.as_str()));
        push_optional(&mut attrs, "stroke", encode_text(&self.stroke));
        push_optional(&mut attrs, "stroke-width", encode_int(self.stroke_width));
        push_optional(&mut attrs, "stroke-dasharray", encode_text(&self.stroke_dasharray));
        push_optional(&mut attrs, "fill", encode_text(&self.fill));
        push_optional(&mut attrs, "fill-opacity", encode_text(&self.fill_opacity));
        push_optional(&mut attrs, "zoom-to-fit", encode_bool(self.zoom_to_fit));
        push_optional(&mut attrs, "tooltip", encode_text(&self.tooltip));
        push_optional(&mut attrs, "tooltip-open", encode_bool(self.tooltip_open));
        let mut events: Vec<EventBinding<'a, H>> = Vec::new();
        push_binding(&mut events, Event::Click, &self.on_click);
        push_binding(&mut events, Event::PointerEnter, &self.on_mouseover);
        push_binding(&mut events, Event::PointerLeave, &self.on_mouseout);
        let node = Node { tag: "leafy-circle", key: None, attrs, events, children: Vec::new() };
        assert(node@.attrs =~= self@.render().attrs);
        assert(node@.events =~= self@.render().events);
        assert(node@.children =~= self@.render().children);
        node
    }

    fn into_kind(self) -> (kind: FeatureKind<H>) {
        FeatureKind::Circle(self)
    }
}

/// A circle renders each field under the name of the field and once: a required
/// field always, an optional field where it is set, and nothing under any other name.
pub proof fn lemma_circle_attributes<H>(c: CircleView<H>, name: Seq<char>)
    ensures
        c.render().values("lat"@) == seq![c.lat],
        c.render().values("lng"@) == seq![c.lng],
        c.render().values("radius"@) == seq![decimal(c.radius as int)],
        c.render().values("stroke"@) == present(c.stroke),
        c.render().values("stroke-width"@) == present(optional_decimal(c.stroke_width)),
        c.render().values("stroke-dasharray"@) == present(c.stroke_dasharray),
        c.render().values("fill"@) == present(c.fill),
        c.render().values("fill-opacity"@) == present(c.fill_opacity),
        c.render().values("zoom-to-fit"@) == present(optional_truth(c.zoom_to_fit)),
        c.render().values("tooltip"@) == present(c.tooltip),
        c.render().values("tooltip-open"@) == present(optional_truth(c.tooltip_open)),
        ({
            &&& name != "lat"@
            &&& name != "lng"@
            &&& name != "radius"@
            &&& name != "stroke"@
            &&& name != "stroke-width"@
            &&& name != "stroke-dasharray"@
            &&& name != "fill"@
            &&& name != "fill-opacity"@
            &&& name != "zoom-to-fit"@
            &&& name != "tooltip"@
            &&& name != "tooltip-open"@
        }) ==> c.render().values(name).len() == 0,
{
    broadcast use group_select;
    lemma_names_differ();
    assert(c.render().values("lat"@) =~= seq![c.lat]);
    assert(c.render().values("lng"@) =~= seq![c.lng]);
    assert(c.render().values("radius"@) =~= seq![decimal(c.radius as int)]);
    assert(c.render().values("stroke"@) =~= present(c.stroke));
    assert(c.render().values("stroke-width"@) =~= present(optional_decimal(c.stroke_width)));
    assert(c.render().values("stroke-dasharray"@) =~= present(c.stroke_dasharray));
    assert(c.render().values("fill"@) =~= present(c.fill));
    assert(c.render().values("fill-opacity"@) =~= present(c.fill_opacity));
    assert(c.render().values("zoom-to-fit"@) =~= present(optional_truth(c.zoom_to_fit)));
    assert(c.render().values("tooltip"@) =~= present(c.tooltip));
    assert(c.render().values("tooltip-open"@) =~= present(optional_truth(c.tooltip_open)));
}

/// A circle binds each handler that is set to the event of the handler and once, and
/// nothing to an event whose handler is unset.
pub proof fn lemma_circle_handlers<H>(c: CircleView<H>)
    ensures
        c.render().handlers(Event::Click) == present(c.on_click),
        c.render().handlers(Event::PointerEnter) == present(c.on_mouseover),
        c.render().handlers(Event::PointerLeave) == present(c.on_mouseout),
{
    broadcast use group_select;
    assert(c.render().handlers(Event::Click) =~= present(c.on_click));
    assert(c.render().handlers(Event::PointerEnter) =~= present(c.on_mouseover));
    assert(c.render().handlers(Event::PointerLeave) =~= present(c.on_mouseout));
}

/// A circle leaves out what is not set: an optional field that is unset has no
/// attribute of its name, and a handler that is unset no binding. With no optional
/// field set, the node holds its coordinate and its radius and nothing else.
pub proof fn lemma_circle_omits_unset_fields<H>(c: CircleView<H>)
    ensures
        c.stroke is None ==> c.render().values("stroke"@).len() == 0,
        c.stroke_width is None ==> c.render().values("stroke-width"@).len() == 0,
        c.stroke_dasharray is None ==> c.render().values("stroke-dasharray"@).len() == 0,
        c.fill is None ==> c.render().values("fill"@).len() == 0,
        c.fill_opacity is None ==> c.render().values("fill-opacity"@).len() == 0,
        c.zoom_to_fit is None ==> c.render().values("zoom-to-fit"@).len() == 0,
        c.tooltip is None ==> c.render().values("tooltip"@).len() == 0,
        c.tooltip_open is None ==> c.render().values("tooltip-open"@).len() == 0,
        c.on_click is None ==> c.render().handlers(Event::Click).len() == 0,
        c.on_mouseover is None ==> c.render().handlers(Event::PointerEnter).len() == 0,
        c.on_mouseout is None ==> c.render().handlers(Event::PointerLeave).len() == 0,
        c == CircleView::<H>::new(c.lat, c.lng, c.radius) ==> c.render() == (NodeView::<H> {
            tag: "leafy-circle"@,
            key: None,
            attrs: seq![("lat"@, c.lat), ("lng"@, c.lng), ("radius"@, decimal(c.radius as int))],
            events: Seq::empty(),
            children: Seq::empty(),
        }),
{
    lemma_circle_attributes(c, Seq::empty());
    lemma_circle_handlers(c);
    if c == CircleView::<H>::new(c.lat, c.lng, c.radius) {
        assert(c.render().attrs
            =~= seq![("lat"@, c.lat), ("lng"@, c.lng), ("radius"@, decimal(c.radius as int))]);
        assert(c.render().events =~= Seq::empty());
    }
}

/// Setting an optional field of a circle a second time replaces the first value: the
/// circle is as if the second value alone had been set, and its node carries the
/// second value once and the first not at all.
pub proof fn lemma_circle_last_write_wins<H>(
    c: CircleView<H>,
    first_text: Seq<char>,
    second_text: Seq<char>,
    first_size: i32,
    second_size: i32,
    first_flag: bool,
    second_flag: bool,
    first_handler: H,
    second_handler: H,
)
    ensures
        c.with_stroke(first_text).with_stroke(second_text) == c.with_stroke(second_text),
        c.with_stroke(first_text).with_stroke(second_text).render().values("stroke"@)
            == seq![second_text],
        c.with_stroke_width(first_size).with_stroke_width(second_size)
            == c.with_stroke_width(second_size),
        c.with_stroke_width(first_size).with_stroke_width(second_size)
            .render().values("stroke-width"@)
            == seq![decimal(second_size as int)],
        c.with_stroke_dasharray(first_text).with_stroke_dasharray(second_text)
            == c.with_stroke_dasharray(second_text),
        c.with_stroke_dasharray(first_text).with_stroke_dasharray(second_text)
            .render().values("stroke-dasharray"@)
            == seq![second_text],
        c.with_fill(first_text).with_fill(second_text) == c.with_fill(second_text),
        c.with_fill(first_text).with_fill(second_text).render().values("fill"@)
            == seq![second_text],
        c.with_fill_opacity(first_text).with_fill_opacity(second_text)
            == c.with_fill_opacity(second_text),
        c.with_fill_opacity(first_text).with_fill_opacity(second_text)
            .render().values("fill-opacity"@)
            == seq![second_text],
        c.with_zoom_to_fit().with_zoom_to_fit() == c.with_zoom_to_fit(),
        c.with_zoom_to_fit().with_zoom_to_fit().render().values("zoom-to-fit"@)
            == seq![truth(true)],
        c.with_tooltip(first_text).with_tooltip(second_text) == c.with_tooltip(second_text),
        c.with_tooltip(first_text).with_tooltip(second_text).render().values("tooltip"@)
            == seq![second_text],
        c.with_tooltip_open(first_flag).with_tooltip_open(second_flag)
            == c.with_tooltip_open(second_flag),
        c.with_tooltip_open(first_flag).with_tooltip_open(second_flag)
            .render().values("tooltip-open"@)
            == seq![truth(second_flag)],
        c.with_on_click(first_handler).with_on_click(second_handler)
            == c.with_on_click(second_handler),
        c.with_on_click(first_handler).with_on_click(second_handler).render().handlers(Event::Click)
            == seq![second_handler],
        c.with_on_mouseover(first_handler).with_on_mouseover(second_handler)
            == c.with_on_mouseover(second_handler),
        c.with_on_mouseover(first_handler).with_on_mouseover(second_handler)
            .render().handlers(Event::PointerEnter)
            == seq![second_handler],
        c.with_on_mouseout(first_handler).with_on_mouseout(second_handler)
            == c.with_on_mouseout(second_handler),
        c.with_on_mouseout(first_handler).with_on_mouseout(second_handler)
            .render().handlers(Event::PointerLeave)
            == seq![second_handler],
{
    lemma_circle_attributes(c.with_stroke(first_text).with_stroke(second_text), Seq::empty());
    lemma_circle_attributes(
        c.with_stroke_width(first_size).with_stroke_width(second_size),
        Seq::empty(),
    );
    lemma_circle_attributes(
        c.with_stroke_dasharray(first_text).with_stroke_dasharray(second_text),
        Seq::empty(),
    );
    lemma_circle_attributes(c.with_fill(first_text).with_fill(second_text), Seq::empty());
    lemma_circle_attributes(
        c.with_fill_opacity(first_text).with_fill_opacity(second_text),
        Seq::empty(),
    );
    lemma_circle_attributes(c.with_zoom_to_fit().with_zoom_to_fit(), Seq::empty());
    lemma_circle_attributes(c.with_tooltip(first_text).with_tooltip(second_text), Seq::empty());
    lemma_circle_attributes(
        c.with_tooltip_open(first_flag).with_tooltip_open(second_flag),
        Seq::empty(),
    );
    lemma_circle_handlers(c.with_on_click(first_handler).with_on_click(second_handler));
    lemma_circle_handlers(c.with_on_mouseover(first_handler).with_on_mouseover(second_handler));
    lemma_circle_handlers(c.with_on_mouseout(first_handler).with_on_mouseout(second_handler));
}

} // verus!
