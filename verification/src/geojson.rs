//! GeoJSON overlays: shapes given as GeoJSON text, with styling, an optional tooltip and handlers.

use crate::encode::{
    decimal, encode_bool, encode_int, encode_required, encode_text, optional_decimal,
    optional_truth, text_view, truth,
};
use crate::feature::{Feature, FeatureKind, FeatureView};
use crate::node::{
    group_select, lemma_names_differ, optional, present, push_binding, push_optional, required,
    Attribute, Event, EventBinding, Node, NodeView,
};
use vstd::prelude::*;

verus! {

/// A shape given as GeoJSON text, which is handed to the host as it is. The
/// opacity of the fill is kept as the decimal text that the host receives.
pub struct Geojson<H> {
    data: String,
    key: Option<String>,
    stroke: Option<String>,
    stroke_width: Option<i32>,
    stroke_dasharray: Option<String>,
    fill: Option<String>,
    fill_opacity: Option<String>,
    zoom_to_fit: Option<bool>,
    tooltip: Option<String>,
    tooltip_open: Option<bool>,
    on_click: Option<H>,
    on_mouseover: Option<H>,
    on_mouseout: Option<H>,
}

/// The mathematical content of an overlay.
pub struct GeojsonView<H> {
    pub data: Seq<char>,
    pub key: Option<Seq<char>>,
    pub stroke: Option<Seq<char>>,
    pub stroke_width: Option<i32>,
    pub stroke_dasharray: Option<Seq<char>>,
    pub fill: Option<Seq<char>>,
    pub fill_opacity: Option<Seq<char>>,
    pub zoom_to_fit: Option<bool>,
    pub tooltip: Option<Seq<char>>,
    pub tooltip_open: Option<bool>,
    pub on_click: Option<H>,
    pub on_mouseover: Option<H>,
    pub on_mouseout: Option<H>,
}

impl<H> GeojsonView<H> {
    /// An overlay with no optional field set.
    pub open spec fn new(data: Seq<char>) -> Self {
        GeojsonView {
            data,
            key: None,
            stroke: None,
            stroke_width: None,
            stroke_dasharray: None,
            fill: None,
            fill_opacity: None,
            zoom_to_fit: None,
            tooltip: None,
            tooltip_open: None,
            on_click: None,
            on_mouseover: None,
            on_mouseout: None,
        }
    }

    /// The same with the identity key set.
    pub open spec fn with_key(self, key: Seq<char>) -> Self {
        GeojsonView { key: Some(key), ..self }
    }

    /// The same with the color of the outline set.
    pub open spec fn with_stroke(self, color: Seq<char>) -> Self {
        GeojsonView { stroke: Some(color), ..self }
    }

    /// The same with the width of the outline set.
    pub open spec fn with_stroke_width(self, size: i32) -> Self {
        GeojsonView { stroke_width: Some(size), ..self }
    }

    /// The same with the dash pattern of the outline set.
    pub open spec fn with_stroke_dasharray(self, dasharray: Seq<char>) -> Self {
        GeojsonView { stroke_dasharray: Some(dasharray), ..self }
    }

    /// The same with the color of the fill set.
    pub open spec fn with_fill(self, color: Seq<char>) -> Self {
        GeojsonView { fill: Some(color), ..self }
    }

    /// The same with the opacity of the fill set.
    pub open spec fn with_fill_opacity(self, opacity: Seq<char>) -> Self {
        GeojsonView { fill_opacity: Some(opacity), ..self }
    }

    /// The same with the request to fit the view set.
    pub open spec fn with_zoom_to_fit(self) -> Self {
        GeojsonView { zoom_to_fit: Some(true), ..self }
    }

    /// The same with the text of the tooltip set.
    pub open spec fn with_tooltip(self, value: Seq<char>) -> Self {
        GeojsonView { tooltip: Some(value), ..self }
    }

    /// The same with the visibility of the tooltip set.
    pub open spec fn with_tooltip_open(self, value: bool) -> Self {
        GeojsonView { tooltip_open: Some(value), ..self }
    }

    /// The same with the handler of a click set.
    pub open spec fn with_on_click(self, handler: H) -> Self {
        GeojsonView { on_click: Some(handler), ..self }
    }

    /// The same with the handler of the pointer entering set.
    pub open spec fn with_on_mouseover(self, handler: H) -> Self {
        GeojsonView { on_mouseover: Some(handler), ..self }
    }

    /// The same with the handler of the pointer leaving set.
    pub open spec fn with_on_mouseout(self, handler: H) -> Self {
        GeojsonView { on_mouseout: Some(handler), ..self }
    }

    /// The attributes that the overlay renders, in order.
    pub open spec fn render_attrs(self) -> Seq<(Seq<char>, Seq<char>)> {
        required("data"@, self.data) + optional("stroke"@, self.stroke) + optional(
            "stroke-width"@,
            optional_decimal(self.stroke_width),
        ) + optional("stroke-dasharray"@, self.stroke_dasharray) + optional("fill"@, self.fill)
            + optional("fill-opacity"@, self.fill_opacity) + optional(
            "zoom-to-fit"@,
            optional_truth(self.zoom_to_fit),
        ) + optional("tooltip"@, self.tooltip) + optional(
            "tooltip-open"@,
            optional_truth(self.tooltip_open),
        )
    }

    /// The node that the overlay renders.
    pub open spec fn render(self) -> NodeView<H> {
        NodeView {
            tag: "leafy-geojson"@,
            key: self.key,
            attrs: self.render_attrs(),
            events: optional(Event::Click, self.on_click) + optional(
                Event::PointerEnter,
                self.on_mouseover,
            ) + optional(Event::PointerLeave, self.on_mouseout),
            children: Seq::empty(),
        }
    }
}

impl<H> View for Geojson<H> {
    type V = GeojsonView<H>;

    closed spec fn view(&self) -> GeojsonView<H> {
        GeojsonView {
            data: self.data@,
            key: text_view(self.key),
            stroke: text_view(self.stroke),
            stroke_width: self.stroke_width,
            stroke_dasharray: text_view(self.stroke_dasharray),
            fill: text_view(self.fill),
            fill_opacity: text_view(self.fill_opacity),
            zoom_to_fit: self.zoom_to_fit,
            tooltip: text_view(self.tooltip),
            tooltip_open: self.tooltip_open,
            on_click: self.on_click,
            on_mouseover: self.on_mouseover,
            on_mouseout: self.on_mouseout,
        }
    }
}

/// An overlay of the given GeoJSON text, with no optional field set.
pub fn geojson<H>(data: &str) -> (g: Geojson<H>)
    ensures
        g@ == GeojsonView::<H>::new(data@),
{
    Geojson {
        data: data.to_owned(),
        key: None,
        stroke: None,
        stroke_width: None,
        stroke_dasharray: None,
        fill: None,
        fill_opacity: None,
        zoom_to_fit: None,
        tooltip: None,
        tooltip_open: None,
        on_click: None,
        on_mouseover: None,
        on_mouseout: None,
    }
}

impl<H> Geojson<H> {
    /// Sets the identity key, by which the host matches the overlay across renderings.
    pub fn key(self, key: &str) -> (r: Self)
        ensures
            r@ == self@.with_key(key@),
    {
        let mut g = self;
        g.key = Some(key.to_owned());
        g
    }

    /// Sets the color of the outline.
    pub fn stroke(self, color: &str) -> (r: Self)
        ensures
            r@ == self@.with_stroke(color@),
    {
        let mut g = self;
        g.stroke = Some(color.to_owned());
        g
    }

    /// Sets the width of the outline.
    pub fn stroke_width(self, size: i32) -> (r: Self)
        ensures
            r@ == self@.with_stroke_width(size),
    {
        let mut g = self;
        g.stroke_width = Some(size);
        g
    }

    /// Sets the dash pattern of the outline.
    pub fn stroke_dasharray(self, dasharray: &str) -> (r: Self)
        ensures
            r@ == self@.with_stroke_dasharray(dasharray@),
    {
        let mut g = self;
        g.stroke_dasharray = Some(dasharray.to_owned());
        g
    }

    /// Sets the color of the fill.
    pub fn fill(self, color: &str) -> (r: Self)
        ensures
            r@ == self@.with_fill(color@),
    {
        let mut g = self;
        g.fill = Some(color.to_owned());
        g
    }

    /// Sets the opacity of the fill, given as its decimal text.
    pub fn fill_opacity(self, opacity: &str) -> (r: Self)
        ensures
            r@ == self@.with_fill_opacity(opacity@),
    {
        let mut g = self;
        g.fill_opacity = Some(opacity.to_owned());
        g
    }

    /// Asks the host to fit the view to the overlay.
    pub fn zoom_to_fit(self) -> (r: Self)
        ensures
            r@ == self@.with_zoom_to_fit(),
    {
        let mut g = self;
        g.zoom_to_fit = Some(true);
        g
    }

    /// Sets the text of the tooltip.
    pub fn tooltip(self, value: &str) -> (r: Self)
        ensures
            r@ == self@.with_tooltip(value@),
    {
        let mut g = self;
        g.tooltip = Some(value.to_owned());
        g
    }

    /// Sets whether the tooltip is shown without the pointer over the overlay.
    pub fn tooltip_open(self, value: bool) -> (r: Self)
        ensures
            r@ == self@.with_tooltip_open(value),
    {
        let mut g = self;
        g.tooltip_open = Some(value);
        g
    }

    /// Sets the handler of a click on the overlay.
    pub fn on_click(self, handler: H) -> (r: Self)
        ensures
            r@ == self@.with_on_click(handler),
    {
        let mut g = self;
        g.on_click = Some(handler);
        g
    }

    /// Sets the handler of the pointer entering the overlay.
    pub fn on_mouseover(self, handler: H) -> (r: Self)
        ensures
            r@ == self@.with_on_mouseover(handler),
    {
        let mut g = self;
        g.on_mouseover = Some(handler);
        g
    }

    /// Sets the handler of the pointer leaving the overlay.
    pub fn on_mouseout(self, handler: H) -> (r: Self)
        ensures
            r@ == self@.with_on_mouseout(handler),
    {
        let mut g = self;
        g.on_mouseout = Some(handler);
        g
    }
}

impl<H> Feature<H> for Geojson<H> {
    open spec fn feature_view(&self) -> FeatureView<H> {
        FeatureView::Geojson(self@)
    }

    fn into_node<'a>(&'a self) -> (node: Node<'a, H>) {
        let mut attrs: Vec<Attribute> = Vec::new();
        push_optional(&mut attrs, "data", encode_required(self.data.as_str()));
        push_optional(&mut attrs, "stroke", encode_text(&self.stroke));
        push_optional(&mut attrs, "stroke-width", encode_int(self.stroke_width));
        push_optional(&mut attrs, "stroke-dasharray", encode_text(&self.stroke_dasharray));
        push_optional(&mut attrs, "fill", encode_text(&self.fill));
        push_optional(&mut attrs, "fill-opacity", encode_text(&self.fill_opacity));
        push_optional(&mut attrs, "zoom-to-fit", encode_bool(self.zoom_to_fit));
        push_optional(&mut attrs, "tooltip", encode_text(&self.tooltip));
        push_optional(&mut attrs, "tooltip-open", encode_bool(self.tooltip_open));
        let mut events: Vec<EventBinding<'a, H>> = Vec::new();
        push_binding(&mut events, Event::Click, &self.on_click);
        push_binding(&mut events, Event::PointerEnter, &self.on_mouseover);
        push_binding(&mut events, Event::PointerLeave, &self.on_mouseout);
        let key: Option<String> = match &self.key {
            Some(k) => Some(k.clone()),
            None => None,
        };
        let node = Node {
            tag: "leafy-geojson",
            key,
            attrs,
            events,
            children: Vec::new(),
        };
        assert(node@.attrs =~= self@.render().attrs);
        assert(node@.events =~= self@.render().events);
        assert(node@.children =~= self@.render().children);
        node
    }

    fn into_kind(self) -> (kind: FeatureKind<H>) {
        FeatureKind::Geojson(self)
    }
}

/// An overlay renders each field under the name of the field and once: a required
/// field always, an optional field where it is set, and nothing under any other name.
pub proof fn lemma_geojson_attributes<H>(g: GeojsonView<H>, name: Seq<char>)
    ensures
        g.render().values("data"@) == seq![g.data],
        g.render().values("stroke"@) == present(g.stroke),
        g.render().values("stroke-width"@) == present(optional_decimal(g.stroke_width)),
        g.render().values("stroke-dasharray"@) == present(g.stroke_dasharray),
        g.render().values("fill"@) == present(g.fill),
        g.render().values("fill-opacity"@) == present(g.fill_opacity),
        g.render().values("zoom-to-fit"@) == present(optional_truth(g.zoom_to_fit)),
        g.render().values("tooltip"@) == present(g.tooltip),
        g.render().values("tooltip-open"@) == present(optional_truth(g.tooltip_open)),
        ({
            &&& name != "data"@
            &&& name != "stroke"@
            &&& name != "stroke-width"@
            &&& name != "stroke-dasharray"@
            &&& name != "fill"@
            &&& name != "fill-opacity"@
            &&& name != "zoom-to-fit"@
            &&& name != "tooltip"@
            &&& name != "tooltip-open"@
        }) ==> g.render().values(name).len() == 0,
{
    broadcast use group_select;
    lemma_names_differ();
    assert(g.render().values("data"@) =~= seq![g.data]);
    assert(g.render().values("stroke"@) =~= present(g.stroke));
    assert(g.render().values("stroke-width"@) =~= present(optional_decimal(g.stroke_width)));
    assert(g.render().values("stroke-dasharray"@) =~= present(g.stroke_dasharray));
    assert(g.render().values("fill"@) =~= present(g.fill));
    assert(g.render().values("fill-opacity"@) =~= present(g.fill_opacity));
    assert(g.render().values("zoom-to-fit"@) =~= present(optional_truth(g.zoom_to_fit)));
    assert(g.render().values("tooltip"@) =~= present(g.tooltip));
    assert(g.render().values("tooltip-open"@) =~= present(optional_truth(g.tooltip_open)));
}

/// An overlay binds each handler that is set to the event of the handler and once, and
/// nothing to an event whose handler is unset.
pub proof fn lemma_geojson_handlers<H>(g: GeojsonView<H>)
    ensures
        g.render().handlers(Event::Click) == present(g.on_click),
        g.render().handlers(Event::PointerEnter) == present(g.on_mouseover),
        g.render().handlers(Event::PointerLeave) == present(g.on_mouseout),
{
    broadcast use group_select;
    assert(g.render().handlers(Event::Click) =~= present(g.on_click));
    assert(g.render().handlers(Event::PointerEnter) =~= present(g.on_mouseover));
    assert(g.render().handlers(Event::PointerLeave) =~= present(g.on_mouseout));
}

/// An overlay leaves out what is not set: an optional field that is unset has no
/// attribute of its name, and a handler that is unset no binding. With no optional
/// field set, the node holds its data and nothing else.
pub proof fn lemma_geojson_omits_unset_fields<H>(g: GeojsonView<H>)
    ensures
        g.stroke is None ==> g.render().values("stroke"@).len() == 0,
        g.stroke_width is None ==> g.render().values("stroke-width"@).len() == 0,
        g.stroke_dasharray is None ==> g.render().values("stroke-dasharray"@).len() == 0,
        g.fill is None ==> g.render().values("fill"@).len() == 0,
        g.fill_opacity is None ==> g.render().values("fill-opacity"@).len() == 0,
        g.zoom_to_fit is None ==> g.render().values("zoom-to-fit"@).len() == 0,
        g.tooltip is None ==> g.render().values("tooltip"@).len() == 0,
        g.tooltip_open is None ==> g.render().values("tooltip-open"@).len() == 0,
        g.key is None ==> g.render().key is None,
        g.on_click is None ==> g.render().handlers(Event::Click).len() == 0,
        g.on_mouseover is None ==> g.render().handlers(Event::PointerEnter).len() == 0,
        g.on_mouseout is None ==> g.render().handlers(Event::PointerLeave).len() == 0,
        g == GeojsonView::<H>::new(g.data) ==> g.render() == (NodeView::<H> {
            tag: "leafy-geojson"@,
            key: None,
            attrs: seq![("data"@, g.data)],
            events: Seq::empty(),
            children: Seq::empty(),
        }),
{
    lemma_geojson_attributes(g, Seq::empty());
    lemma_geojson_handlers(g);
    if g == GeojsonView::<H>::new(g.data) {
        assert(g.render().attrs =~= seq![("data"@, g.data)]);
        assert(g.render().events =~= Seq::empty());
    }
}

/// Setting an optional field of an overlay a second time replaces the first value: the
/// overlay is as if the second value alone had been set, and its node carries the
/// second value once and the first not at all.
pub proof fn lemma_geojson_last_write_wins<H>(
    g: GeojsonView<H>,
    first_text: Seq<char>,
    second_text: Seq<char>,
    first_size: i32,
    second_size: i32,
    first_flag: bool,
    second_flag: bool,
    first_handler: H,
    second_handler: H,
)
    ensures
        g.with_key(first_text).with_key(second_text) == g.with_key(second_text),
        g.with_key(first_text).with_key(second_text).render().key == Some(second_text),
        g.with_stroke(first_text).with_stroke(second_text) == g.with_stroke(second_text),
        g.with_stroke(first_text).with_stroke(second_text).render().values("stroke"@)
            == seq![second_text],
        g.with_stroke_width(first_size).with_stroke_width(second_size)
            == g.with_stroke_width(second_size),
        g.with_stroke_width(first_size).with_stroke_width(second_size)
            .render().values("stroke-width"@)
            == seq![decimal(second_size as int)],
        g.with_stroke_dasharray(first_text).with_stroke_dasharray(second_text)
            == g.with_stroke_dasharray(second_text),
        g.with_stroke_dasharray(first_text).with_stroke_dasharray(second_text)
            .render().values("stroke-dasharray"@)
            == seq![second_text],
        g.with_fill(first_text).with_fill(second_text) == g.with_fill(second_text),
        g.with_fill(first_text).with_fill(second_text).render().values("fill"@)
            == seq![second_text],
        g.with_fill_opacity(first_text).with_fill_opacity(second_text)
            == g.with_fill_opacity(second_text),
        g.with_fill_opacity(first_text).with_fill_opacity(second_text)
            .render().values("fill-opacity"@)
            == seq![second_text],
        g.with_zoom_to_fit().with_zoom_to_fit() == g.with_zoom_to_fit(),
        g.with_zoom_to_fit().with_zoom_to_fit().render().values("zoom-to-fit"@)
            == seq![truth(true)],
        g.with_tooltip(first_text).with_tooltip(second_text) == g.with_tooltip(second_text),
        g.with_tooltip(first_text).with_tooltip(second_text).render().values("tooltip"@)
            == seq![second_text],
        g.with_tooltip_open(first_flag).with_tooltip_open(second_flag)
            == g.with_tooltip_open(second_flag),
        g.with_tooltip_open(first_flag).with_tooltip_open(second_flag)
            .render().values("tooltip-open"@)
            == seq![truth(second_flag)],
        g.with_on_click(first_handler).with_on_click(second_handler)
            == g.with_on_click(second_handler),
        g.with_on_click(first_handler).with_on_click(second_handler).render().handlers(Event::Click)
            == seq![second_handler],
        g.with_on_mouseover(first_handler).with_on_mouseover(second_handler)
            == g.with_on_mouseover(second_handler),
        g.with_on_mouseover(first_handler).with_on_mouseover(second_handler)
            .render().handlers(Event::PointerEnter)
            == seq![second_handler],
        g.with_on_mouseout(first_handler).with_on_mouseout(second_handler)
            == g.with_on_mouseout(second_handler),
        g.with_on_mouseout(first_handler).with_on_mouseout(second_handler)
            .render().handlers(Event::PointerLeave)
            == seq![second_handler],
{
    lemma_geojson_attributes(g.with_stroke(first_text).with_stroke(second_text), Seq::empty());
    lemma_geojson_attributes(
        g.with_stroke_width(first_size).with_stroke_width(second_size),
        Seq::empty(),
    );
    lemma_geojson_attributes(
        g.with_stroke_dasharray(first_text).with_stroke_dasharray(second_text),
        Seq::empty(),
    );
    lemma_geojson_attributes(g.with_fill(first_text).with_fill(second_text), Seq::empty());
    lemma_geojson_attributes(
        g.with_fill_opacity(first_text).with_fill_opacity(second_text),
        Seq::empty(),
    );
    lemma_geojson_attributes(g.with_zoom_to_fit().with_zoom_to_fit(), Seq::empty());
    lemma_geojson_attributes(g.with_tooltip(first_text).with_tooltip(second_text), Seq::empty());
    lemma_geojson_attributes(
        g.with_tooltip_open(first_flag).with_tooltip_open(second_flag),
        Seq::empty(),
    );
    lemma_geojson_handlers(g.with_on_click(first_handler).with_on_click(second_handler));
    lemma_geojson_handlers(g.with_on_mouseover(first_handler).with_on_mouseover(second_handler));
    lemma_geojson_handlers(g.with_on_mouseout(first_handler).with_on_mouseout(second_handler));
}

} // verus!
