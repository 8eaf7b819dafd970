//! A declarative description of a map and the features drawn on it, rendered
//! into a tree of structural nodes for a custom-element host.
//!
//! A map is built with [`map`], features with [`marker`], [`circle`],
//! [`geojson`] and [`feature_group`]; each is refined by chained setters and
//! rendered with `into_node`. What a rendering yields is stated over the views
//! of the types: the `render` functions of the views say it in full, and the
//! lemmas beside them say what follows for every map and every feature.
//!
//! Coordinates and opacities are taken as the decimal text that the host
//! receives, and are handed on as they are. The type parameter `H` is the type
//! of the handlers that an application attaches to events: a feature keeps
//! them, a node refers to them, and nothing here calls them.
//!
//! Every attribute value passes through seed's encoder on its way into a node.
//! The two calls into seed stand in [`encode`], behind contracts that are
//! taken on trust.

pub mod circle;
pub mod encode;
pub mod feature;
pub mod geojson;
pub mod marker;
pub mod node;

pub use circle::{circle, Circle};
pub use encode::{
    bool_text, count_text, encode_bool, encode_int, encode_required, encode_text, int_text,
};
pub use feature::{feature_group, Feature, FeatureGroup, FeatureKind};
pub use geojson::{geojson, Geojson};
pub use marker::{marker, Marker};
pub use node::{Attribute, Event, EventBinding, Node};

use encode::{decimal, optional_decimal, text_view};
use feature::{features_view, lemma_features_view_push, render_all, render_children, FeatureView};
use node::{
    group_select, lemma_names_differ, nodes_view, optional, present, push_optional, NodeView,
};
use vstd::prelude::*;

verus! {

/// A map. The coordinate of its center is kept as the decimal text that the
/// host receives.
pub struct LeafyMap<'a, H> {
    key: Option<&'a str>,
    lat: Option<String>,
    lng: Option<String>,
    zoom: Option<i32>,
    features: Vec<FeatureKind<H>>,
}

/// The mathematical content of a map.
pub struct LeafyMapView<H> {
    pub key: Option<Seq<char>>,
    pub lat: Option<Seq<char>>,
    pub lng: Option<Seq<char>>,
    pub zoom: Option<i32>,
    pub features: Seq<FeatureView<H>>,
}

impl<H> LeafyMapView<H> {
    /// A map without view state and without features.
    pub open spec fn new() -> Self {
        LeafyMapView { key: None, lat: None, lng: None, zoom: None, features: Seq::empty() }
    }

    /// The same with `feature` added as the last one.
    pub open spec fn with(self, feature: FeatureView<H>) -> Self {
        LeafyMapView { features: self.features.push(feature), ..self }
    }

    /// The same with the identity key set.
    pub open spec fn with_key(self, key: Seq<char>) -> Self {
        LeafyMapView { key: Some(key), ..self }
    }

    /// The same with both parts of the center set.
    pub open spec fn with_center(self, lat: Seq<char>, lng: Seq<char>) -> Self {
        LeafyMapView { lat: Some(lat), lng: Some(lng), ..self }
    }

    /// The same with the zoom level set.
    pub open spec fn with_zoom(self, zoom: i32) -> Self {
        LeafyMapView { zoom: Some(zoom), ..self }
    }

    /// The node that the map renders: its key, what is set of its view state,
    /// and the nodes of its features as children.
    pub open spec fn render(self) -> NodeView<H> {
        NodeView {
            tag: "leafy-map"@,
            key: self.key,
            attrs: optional("lat"@, self.lat) + optional("lng"@, self.lng) + optional(
                "zoom"@,
                optional_decimal(self.zoom),
            ),
            events: Seq::empty(),
            children: render_all(self.features),
        }
    }
}

impl<'a, H> View for LeafyMap<'a, H> {
    type V = LeafyMapView<H>;

    closed spec fn view(&self) -> LeafyMapView<H> {
        LeafyMapView {
            key: match self.key {
                Some(key) => Some(key@),
                None => None,
            },
            lat: text_view(self.lat),
            lng: text_view(self.lng),
            zoom: self.zoom,
            features: features_view(self.features@),
        }
    }
}

/// A map without view state and without features.
pub fn map<'a, H>() -> (m: LeafyMap<'a, H>)
    ensures
        m@ == LeafyMapView::<H>::new(),
{
    let m = LeafyMap { key: None, lat: None, lng: None, zoom: None, features: Vec::new() };
    assert(m@.features =~= Seq::empty());
    m
}

impl<'a, H> LeafyMap<'a, H> {
    /// Adds a feature as the last one of the map.
    pub fn with<F: Feature<H>>(self, feature: F) -> (r: Self)
        ensures
            r@ == self@.with(feature.feature_view()),
    {
        let mut m = self;
        let kind = feature.into_kind();
        proof {
            lemma_features_view_push(m.features@, kind);
        }
        m.features.push(kind);
        m
    }

    /// Sets the identity key, by which the host matches the map across renderings.
    pub fn key(self, key: &'a str) -> (r: Self)
        ensures
            r@ == self@.with_key(key@),
    {
        let mut m = self;
        m.key = Some(key);
        m
    }

    /// Centers the map on a coordinate, given as decimal text.
    pub fn center_on(self, lat: &str, lng: &str) -> (r: Self)
        ensures
            r@ == self@.with_center(lat@, lng@),
    {
        let mut m = self;
        m.lat = Some(lat.to_owned());
        m.lng = Some(lng.to_owned());
        m
    }

    /// Sets the zoom level.
    pub fn zoom(self, zoom: i32) -> (r: Self)
        ensures
            r@ == self@.with_zoom(zoom),
    {
        let mut m = self;
        m.zoom = Some(zoom);
        m
    }

    /// Renders the map, with everything that it contains.
    pub fn into_node(&'a self) -> (node: Node<'a, H>)
        ensures
            node@ == self@.render(),
    {
        let key: Option<String> = match self.key {
            Some(k) => Some(k.to_owned()),
            None => None,
        };
        let mut attrs: Vec<Attribute> = Vec::new();
        push_optional(&mut attrs, "lat", encode_text(&self.lat));
        push_optional(&mut attrs, "lng", encode_text(&self.lng));
        push_optional(&mut attrs, "zoom", encode_int(self.zoom));
        let children = render_children(&self.features);
        let node = Node { tag: "leafy-map", key, attrs, events: Vec::new(), children };
        assert(node@.attrs =~= self@.render().attrs);
        assert(node@.events =~= self@.render().events);
        node
    }

    /// Renders the map as a sequence of nodes, which holds the node of the map alone.
    pub fn into_nodes(&'a self) -> (nodes: Vec<Node<'a, H>>)
        ensures
            nodes_view(nodes@) == seq![self@.render()],
    {
        let mut nodes: Vec<Node<'a, H>> = Vec::new();
        nodes.push(self.into_node());
        assert(nodes_view(nodes@) =~= seq![self@.render()]);
        nodes
    }
}

/// A map renders each part of its view state under the name of the part and
/// once where the part is set, and nothing under any other name. The latitude
/// and the longitude of the center are rendered each on its own.
pub proof fn lemma_map_attributes<H>(m: LeafyMapView<H>, name: Seq<char>)
    ensures
        m.render().values("lat"@) == present(m.lat),
        m.render().values("lng"@) == present(m.lng),
        m.render().values("zoom"@) == present(optional_decimal(m.zoom)),
        name != "lat"@ && name != "lng"@ && name != "zoom"@ ==> m.render().values(name).len() == 0,
{
    broadcast use group_select;
    lemma_names_differ();
    assert(m.render().values("lat"@) =~= present(m.lat));
    assert(m.render().values("lng"@) =~= present(m.lng));
    assert(m.render().values("zoom"@) =~= present(optional_decimal(m.zoom)));
}

/// A map leaves out what is not set: a part of its view state that is unset has
/// no attribute of its name, and an unset key is no key. A map with nothing set
/// and no feature renders a node with no attribute and no child.
pub proof fn lemma_map_omits_unset_fields<H>(m: LeafyMapView<H>)
    ensures
        m.lat is None ==> m.render().values("lat"@).len() == 0,
        m.lng is None ==> m.render().values("lng"@).len() == 0,
        m.zoom is None ==> m.render().values("zoom"@).len() == 0,
        m.key is None ==> m.render().key is None,
        m.lat is None && m.lng is None && m.zoom is None ==> m.render().attrs.len() == 0,
        m.features.len() == 0 ==> m.render().children.len() == 0,
        LeafyMapView::<H>::new().render() == (NodeView::<H> {
            tag: "leafy-map"@,
            key: None,
            attrs: Seq::empty(),
            events: Seq::empty(),
            children: Seq::empty(),
        }),
{
    lemma_map_attributes(m, Seq::empty());
    let fresh = LeafyMapView::<H>::new().render();
    assert(fresh.attrs =~= Seq::empty());
    assert(fresh.children =~= Seq::empty());
}

/// Setting a part of the view state of a map a second time replaces the first
/// value: the map is as if the second value alone had been set, and its node
/// carries the second value once and the first not at all.
pub proof fn lemma_map_last_write_wins<H>(
    m: LeafyMapView<H>,
    first_text: Seq<char>,
    second_text: Seq<char>,
    first_center: (Seq<char>, Seq<char>),
    second_center: (Seq<char>, Seq<char>),
    first_zoom: i32,
    second_zoom: i32,
)
    ensures
        m.with_key(first_text).with_key(second_text) == m.with_key(second_text),
        m.with_key(first_text).with_key(second_text).render().key == Some(second_text),
        m.with_center(first_center.0, first_center.1).with_center(second_center.0, second_center.1)
            == m.with_center(second_center.0, second_center.1),
        m.with_center(first_center.0, first_center.1).with_center(
            second_center.0,
            second_center.1,
        ).render().values("lat"@) == seq![second_center.0],
        m.with_center(first_center.0, first_center.1).with_center(
            second_center.0,
            second_center.1,
        ).render().values("lng"@) == seq![second_center.1],
        m.with_zoom(first_zoom).with_zoom(second_zoom) == m.with_zoom(second_zoom),
        m.with_zoom(first_zoom).with_zoom(second_zoom).render().values("zoom"@)
            == seq![decimal(second_zoom as int)],
{
    lemma_map_attributes(
        m.with_center(first_center.0, first_center.1).with_center(second_center.0, second_center.1),
        Seq::empty(),
    );
    lemma_map_attributes(m.with_zoom(first_zoom).with_zoom(second_zoom), Seq::empty());
}

/// A map renders its features as its children, in the order in which they were
/// added: adding a feature appends the node of the feature and leaves the rest
/// of the node as it was.
pub proof fn lemma_map_children_in_order<H>(m: LeafyMapView<H>, feature: FeatureView<H>)
    ensures
        m.render().children.len() == m.features.len(),
        forall|i: int|
            0 <= i < m.features.len() ==> #[trigger] m.render().children[i]
                == m.features[i].render(),
        m.with(feature).render().children == m.render().children.push(feature.render()),
        m.with(feature).render().attrs == m.render().attrs,
        m.with(feature).render().key == m.render().key,
{
    assert(m.with(feature).render().children =~= m.render().children.push(feature.render()));
}

} // verus!
