//! Features: what can be drawn on the map, alone or in groups.

use crate::circle::{Circle, CircleView};
use crate::encode::{encode_bool, optional_truth, truth};
use crate::geojson::{Geojson, GeojsonView};
use crate::marker::{Marker, MarkerView};
use crate::node::{
    deepest, depth, group_select, nodes_view, optional, present, push_optional, Attribute, Node,
    NodeView,
};
use vstd::prelude::*;

verus! {

/// The capability of rendering a structural node.
pub trait Feature<H>: Sized {
    /// The feature as one of the kinds that the map draws.
    spec fn feature_view(&self) -> FeatureView<H>;

    /// Renders the feature, with everything that it contains.
    fn into_node<'a>(&'a self) -> (node: Node<'a, H>)
        ensures
            node@ == self.feature_view().render(),
    ;

    /// Hands the feature over as a member of a group or of the map.
    fn into_kind(self) -> (kind: FeatureKind<H>)
        ensures
            kind@ == self.feature_view(),
    ;
}

/// A feature of any kind.
pub enum FeatureKind<H> {
    Marker(Marker<H>),
    Circle(Circle<H>),
    Geojson(Geojson<H>),
    Group(FeatureGroup<H>),
}

/// Features that are drawn, and fitted into view, together.
pub struct FeatureGroup<H> {
    zoom_to_fit: Option<bool>,
    features: Vec<FeatureKind<H>>,
}

/// The mathematical content of a feature of any kind.
pub enum FeatureView<H> {
    Marker(MarkerView<H>),
    Circle(CircleView<H>),
    Geojson(GeojsonView<H>),
    Group(FeatureGroupView<H>),
}

/// The mathematical content of a group.
pub struct FeatureGroupView<H> {
    pub zoom_to_fit: Option<bool>,
    pub features: Seq<FeatureView<H>>,
}

/// The nodes that the features render, in the order of the features.
pub open spec fn render_all<H>(features: Seq<FeatureView<H>>) -> Seq<NodeView<H>>
    decreases features,
{
    Seq::new(
        features.len(),
        |i: int|
            if 0 <= i < features.len() {
                render_feature(features[i])
            } else {
                arbitrary()
            },
    )
}

/// The node that a group renders: its flag, and the nodes of its members as children.
pub open spec fn render_group<H>(group: FeatureGroupView<H>) -> NodeView<H>
    decreases group,
{
    NodeView {
        tag: "leafy-feature-group"@,
        key: None,
        attrs: optional("zoom-to-fit"@, optional_truth(group.zoom_to_fit)),
        events: Seq::empty(),
        children: render_all(group.features),
    }
}

/// The node that a feature renders.
pub open spec fn render_feature<H>(feature: FeatureView<H>) -> NodeView<H>
    decreases feature,
{
    match feature {
        FeatureView::Marker(m) => m.render(),
        FeatureView::Circle(c) => c.render(),
        FeatureView::Geojson(o) => o.render(),
        FeatureView::Group(g) => render_group(g),
    }
}

impl<H> FeatureView<H> {
    /// The node that the feature renders.
    pub open spec fn render(self) -> NodeView<H> {
        render_feature(self)
    }
}

impl<H> FeatureGroupView<H> {
    /// A group without members and without a flag.
    pub open spec fn new() -> Self {
        FeatureGroupView { zoom_to_fit: None, features: Seq::empty() }
    }

    /// The same with `feature` added as the last one.
    pub open spec fn with(self, feature: FeatureView<H>) -> Self {
        FeatureGroupView { features: self.features.push(feature), ..self }
    }

    /// The same with the request to fit the view set.
    pub open spec fn with_zoom_to_fit(self) -> Self {
        FeatureGroupView { zoom_to_fit: Some(true), ..self }
    }

    /// The node that the group renders.
    pub open spec fn render(self) -> NodeView<H> {
        render_group(self)
    }
}

/// The content of each feature of a sequence, in order.
pub open spec fn features_view<H>(features: Seq<FeatureKind<H>>) -> Seq<FeatureView<H>>
    decreases features,
{
    Seq::new(
        features.len(),
        |i: int|
            if 0 <= i < features.len() {
                kind_view(features[i])
            } else {
                arbitrary()
            },
    )
}

/// The content of a group.
pub closed spec fn group_view<H>(group: FeatureGroup<H>) -> FeatureGroupView<H>
    decreases group,
{
    FeatureGroupView {
        zoom_to_fit: group.zoom_to_fit,
        features: features_view(group.features@),
    }
}

/// The content of a feature of any kind.
pub open spec fn kind_view<H>(kind: FeatureKind<H>) -> FeatureView<H>
    decreases kind,
{
    match kind {
        FeatureKind::Marker(m) => FeatureView::Marker(m@),
        FeatureKind::Circle(c) => FeatureView::Circle(c@),
        FeatureKind::Geojson(o) => FeatureView::Geojson(o@),
        FeatureKind::Group(g) => FeatureView::Group(group_view(g)),
    }
}

impl<H> View for FeatureKind<H> {
    type V = FeatureView<H>;

    open spec fn view(&self) -> FeatureView<H> {
        kind_view(*self)
    }
}

impl<H> View for FeatureGroup<H> {
    type V = FeatureGroupView<H>;

    open spec fn view(&self) -> FeatureGroupView<H> {
        group_view(*self)
    }
}

/// Appending a feature to a sequence appends its content to the content of the sequence.
pub(crate) proof fn lemma_features_view_push<H>(features: Seq<FeatureKind<H>>, kind: FeatureKind<H>)
    ensures
        features_view(features.push(kind)) == features_view(features).push(kind@),
{
    assert(features_view(features.push(kind)) =~= features_view(features).push(kind@));
}

/// Renders each feature of `features`, in order.
pub(crate) fn render_children<'a, H>(features: &'a Vec<FeatureKind<H>>) -> (children: Vec<
    Node<'a, H>,
>)
    ensures
        nodes_view(children@) == render_all(features_view(features@)),
    decreases features,
{
    let mut children: Vec<Node<'a, H>> = Vec::new();
    let mut i: usize = 0;
    while i < features.len()
        invariant
            i <= features.len(),
            children@.len() == i,
            forall|j: int|
                0 <= j < i ==> (#[trigger] children@[j])@ == render_feature(features@[j]@),
        decreases features.len() - i,
    {
        let child = features[i].into_node();
        children.push(child);
        i = i + 1;
    }
    assert(nodes_view(children@) =~= render_all(features_view(features@))) by {
        assert forall|j: int| 0 <= j < i implies nodes_view(children@)[j] == render_all(
            features_view(features@),
        )[j] by {
            assert(nodes_view(children@)[j] == children@[j]@);
            assert(features_view(features@)[j] == features@[j]@);
        }
    }
    children
}

/// A group without members.
pub fn feature_group<H>() -> (g: FeatureGroup<H>)
    ensures
        g@ == FeatureGroupView::<H>::new(),
{
    let g = FeatureGroup { zoom_to_fit: None, features: Vec::new() };
    assert(g@.features =~= Seq::empty());
    g
}

impl<H> FeatureGroup<H> {
    /// Adds a feature as the last member of the group.
    pub fn with<F: Feature<H>>(self, feature: F) -> (r: Self)
        ensures
            r@ == self@.with(feature.feature_view()),
    {
        let mut features = self.features;
        let kind = feature.into_kind();
        proof {
            lemma_features_view_push(features@, kind);
        }
        features.push(kind);
        FeatureGroup { zoom_to_fit: self.zoom_to_fit, features }
    }

    /// Asks the host to fit the view to the members of the group.
    pub fn zoom_to_fit(self) -> (r: Self)
        ensures
            r@ == self@.with_zoom_to_fit(),
    {
        let mut g = self;
        g.zoom_to_fit = Some(true);
        g
    }
}

impl<H> Feature<H> for FeatureGroup<H> {
    open spec fn feature_view(&self) -> FeatureView<H> {
        FeatureView::Group(self@)
    }

    fn into_node<'a>(&'a self) -> (node: Node<'a, H>)
        decreases self,
    {
        let mut attrs: Vec<Attribute> = Vec::new();
        push_optional(&mut attrs, "zoom-to-fit", encode_bool(self.zoom_to_fit));
        let children = render_children(&self.features);
        let node = Node {
            tag: "leafy-feature-group",
            key: None,
            attrs,
            events: Vec::new(),
            children,
        };
        assert(node@.attrs =~= render_group(self@).attrs);
        assert(node@.events =~= render_group(self@).events);
        node
    }

    fn into_kind(self) -> (kind: FeatureKind<H>) {
        FeatureKind::Group(self)
    }
}

impl<H> Feature<H> for FeatureKind<H> {
    open spec fn feature_view(&self) -> FeatureView<H> {
        self@
    }

    fn into_node<'a>(&'a self) -> (node: Node<'a, H>)
        decreases self,
    {
        match self {
            FeatureKind::Marker(m) => m.into_node(),
            FeatureKind::Circle(c) => c.into_node(),
            FeatureKind::Geojson(o) => o.into_node(),
            FeatureKind::Group(g) => g.into_node(),
        }
    }

    fn into_kind(self) -> (kind: FeatureKind<H>) {
        self
    }
}

/// The number of features on the longest path from `feature` down into the
/// groups that it holds: one for a feature that is no group.
pub open spec fn nesting<H>(feature: FeatureView<H>) -> nat
    decreases feature,
{
    match feature {
        FeatureView::Group(g) => 1 + deepest_nesting(g.features),
        _ => 1,
    }
}

/// The nesting of the most deeply nested of `features`, zero where there is none.
pub open spec fn deepest_nesting<H>(features: Seq<FeatureView<H>>) -> nat
    decreases features,
{
    if features.len() == 0 {
        0
    } else {
        let rest = deepest_nesting(features.drop_last());
        let last = nesting(features.last());
        if last > rest {
            last
        } else {
            rest
        }
    }
}

/// The children of what features render are the nodes of the features, one for
/// each and in the same order; what a feature renders does not depend on the
/// features beside it.
pub proof fn lemma_children_in_order<H>(features: Seq<FeatureView<H>>)
    ensures
        render_all(features).len() == features.len(),
        forall|i: int|
            0 <= i < features.len() ==> #[trigger] render_all(features)[i] == features[i].render(),
{
}

/// A group renders its members as its children, in the order in which they
/// were added: adding a feature appends the node of the feature and leaves the
/// nodes of the earlier members as they were.
pub proof fn lemma_group_children_in_order<H>(group: FeatureGroupView<H>, feature: FeatureView<H>)
    ensures
        group.render().children.len() == group.features.len(),
        forall|i: int|
            0 <= i < group.features.len() ==> #[trigger] group.render().children[i]
                == group.features[i].render(),
        group.with(feature).render().children == group.render().children.push(feature.render()),
        group.with(feature).render().attrs == group.render().attrs,
{
    assert(group.with(feature).render().children =~= group.render().children.push(
        feature.render(),
    ));
}

/// A group renders its flag once where the flag is set and leaves it out where
/// it is not; a group without members and without a flag renders a node with
/// nothing in it. Asking twice for the view to be fitted is asking once.
pub proof fn lemma_group_flag<H>(group: FeatureGroupView<H>, name: Seq<char>)
    ensures
        group.render().values("zoom-to-fit"@) == present(optional_truth(group.zoom_to_fit)),
        name != "zoom-to-fit"@ ==> group.render().values(name).len() == 0,
        group.zoom_to_fit is None ==> group.render().attrs.len() == 0,
        FeatureGroupView::<H>::new().render() == (NodeView::<H> {
            tag: "leafy-feature-group"@,
            key: None,
            attrs: Seq::empty(),
            events: Seq::empty(),
            children: Seq::empty(),
        }),
        group.with_zoom_to_fit().with_zoom_to_fit() == group.with_zoom_to_fit(),
        group.with_zoom_to_fit().render().values("zoom-to-fit"@) == seq![truth(true)],
{
    broadcast use group_select;
    assert(FeatureGroupView::<H>::new().render().children =~= Seq::empty());
}

/// The tree that a feature renders is as deep as the feature is nested: a
/// node for the feature itself, and below it the nodes of what it holds.
pub proof fn lemma_depth_is_nesting<H>(feature: FeatureView<H>)
    ensures
        depth(feature.render()) == nesting(feature),
    decreases feature,
{
    match feature {
        FeatureView::Group(g) => {
            lemma_deepest_is_deepest_nesting(g.features);
        },
        _ => {
            assert(feature.render().children.len() == 0);
        },
    }
}

/// The deepest of the trees that features render is as deep as the most
/// deeply nested of the features.
pub proof fn lemma_deepest_is_deepest_nesting<H>(features: Seq<FeatureView<H>>)
    ensures
        deepest(render_all(features)) == deepest_nesting(features),
    decreases features,
{
    if features.len() > 0 {
        assert(render_all(features).drop_last() =~= render_all(features.drop_last()));
        assert(render_all(features).last() == features.last().render());
        lemma_depth_is_nesting(features.last());
        lemma_deepest_is_deepest_nesting(features.drop_last());
    }
}

} // verus!
