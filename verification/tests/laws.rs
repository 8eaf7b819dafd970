use leafy::{circle, feature_group, geojson, marker, Event, Feature, Node};

type Handler = fn() -> u8;

fn one() -> u8 {
    1
}

fn two() -> u8 {
    2
}

/// A node as plain values: tag, key, attributes, events with what their handlers return, children.
#[derive(Debug, PartialEq)]
struct Plain {
    tag: String,
    key: Option<String>,
    attrs: Vec<(String, String)>,
    events: Vec<(Event, u8)>,
    children: Vec<Plain>,
}

fn plain(node: &Node<'_, Handler>) -> Plain {
    Plain {
        tag: node.tag.to_string(),
        key: node.key.clone(),
        attrs: node.attrs.iter().map(|a| (a.name.to_string(), a.value.clone())).collect(),
        events: node.events.iter().map(|b| (b.event, (b.handler)())).collect(),
        children: node.children.iter().map(plain).collect(),
    }
}

fn values_of(node: &Node<'_, Handler>, name: &str) -> Vec<String> {
    node.attrs.iter().filter(|a| a.name == name).map(|a| a.value.clone()).collect()
}

fn depth(node: &Node<'_, Handler>) -> usize {
    1 + node.children.iter().map(depth).max().unwrap_or(0)
}

#[test]
fn marker_without_options_has_its_coordinate_only() {
    let m = marker::<Handler>("59.91", "10.74");
    let node = m.into_node();
    assert_eq!(
        plain(&node),
        Plain {
            tag: "marker-kind".to_string(),
            key: None,
            attrs: vec![
                ("lat".to_string(), "59.91".to_string()),
                ("lng".to_string(), "10.74".to_string())
            ],
            events: vec![],
            children: vec![],
        }
    );
}

#[test]
fn circle_without_options_has_its_geometry_only() {
    let c = circle::<Handler>("59.91", "10.74", 100);
    let node = c.into_node();
    assert_eq!(
        plain(&node),
        Plain {
            tag: "leafy-circle".to_string(),
            key: None,
            attrs: vec![
                ("lat".to_string(), "59.91".to_string()),
                ("lng".to_string(), "10.74".to_string()),
                ("radius".to_string(), "100".to_string())
            ],
            events: vec![],
            children: vec![],
        }
    );
}

#[test]
fn geojson_without_options_has_its_data_only() {
    let g = geojson::<Handler>("{}");
    let node = g.into_node();
    assert_eq!(
        plain(&node),
        Plain {
            tag: "leafy-geojson".to_string(),
            key: None,
            attrs: vec![("data".to_string(), "{}".to_string())],
            events: vec![],
            children: vec![],
        }
    );
}

#[test]
fn unset_fields_stay_out_beside_set_ones() {
    let c = circle::<Handler>("1", "2", 3).fill("red");
    let node = c.into_node();
    for name in [
        "stroke",
        "stroke-width",
        "stroke-dasharray",
        "fill-opacity",
        "zoom-to-fit",
        "tooltip",
        "tooltip-open",
    ] {
        assert!(values_of(&node, name).is_empty(), "{}", name);
    }
    assert_eq!(values_of(&node, "fill"), vec!["red".to_string()]);
    assert!(node.attrs.iter().all(|a| !a.value.is_empty()));
}

#[test]
fn marker_setters_keep_the_last_value() {
    let m = marker::<Handler>("1", "2")
        .tooltip("first")
        .tooltip_open(true)
        .on_click(one)
        .on_mouseover(one)
        .on_mouseout(one)
        .tooltip("second")
        .tooltip_open(false)
        .on_click(two)
        .on_mouseover(two)
        .on_mouseout(two);
    let node = m.into_node();
    assert_eq!(values_of(&node, "tooltip"), vec!["second".to_string()]);
    assert_eq!(values_of(&node, "tooltip-open"), vec!["false".to_string()]);
    assert_eq!(
        plain(&node).events,
        vec![(Event::Click, 2), (Event::PointerEnter, 2), (Event::PointerLeave, 2)]
    );
    let once = marker::<Handler>("1", "2")
        .tooltip("second")
        .tooltip_open(false)
        .on_click(two)
        .on_mouseover(two)
        .on_mouseout(two);
    assert_eq!(plain(&node), plain(&once.into_node()));
}

#[test]
fn circle_setters_keep_the_last_value() {
    let c = circle::<Handler>("1", "2", 3)
        .stroke("red")
        .stroke("green")
        .stroke_width(1)
        .stroke_width(2)
        .stroke_dasharray("1")
        .stroke_dasharray("2 2")
        .fill("white")
        .fill("black")
        .fill_opacity("0.1")
        .fill_opacity("0.9")
        .zoom_to_fit()
        .zoom_to_fit()
        .tooltip("a")
        .tooltip("b")
        .tooltip_open(false)
        .tooltip_open(true)
        .on_click(one)
        .on_click(two);
    let node = c.into_node();
    assert_eq!(values_of(&node, "stroke"), vec!["green".to_string()]);
    assert_eq!(values_of(&node, "stroke-width"), vec!["2".to_string()]);
    assert_eq!(values_of(&node, "stroke-dasharray"), vec!["2 2".to_string()]);
    assert_eq!(values_of(&node, "fill"), vec!["black".to_string()]);
    assert_eq!(values_of(&node, "fill-opacity"), vec!["0.9".to_string()]);
    assert_eq!(values_of(&node, "zoom-to-fit"), vec!["true".to_string()]);
    assert_eq!(values_of(&node, "tooltip"), vec!["b".to_string()]);
    assert_eq!(values_of(&node, "tooltip-open"), vec!["true".to_string()]);
    assert_eq!(plain(&node).events, vec![(Event::Click, 2)]);
    assert_eq!(node.attrs.len(), 11);
}

#[test]
fn geojson_setters_keep_the_last_value() {
    let g = geojson::<Handler>("{}")
        .key("a")
        .key("b")
        .stroke("red")
        .stroke("green")
        .stroke_width(-1)
        .stroke_width(-20)
        .fill_opacity("0.5")
        .fill_opacity("0.75")
        .on_mouseout(one)
        .on_mouseout(two);
    let node = g.into_node();
    assert_eq!(node.key, Some("b".to_string()));
    assert_eq!(values_of(&node, "stroke"), vec!["green".to_string()]);
    assert_eq!(values_of(&node, "stroke-width"), vec!["-20".to_string()]);
    assert_eq!(values_of(&node, "fill-opacity"), vec!["0.75".to_string()]);
    assert_eq!(plain(&node).events, vec![(Event::PointerLeave, 2)]);
    assert_eq!(node.attrs.len(), 4);
}

#[test]
fn map_setters_keep_the_last_value() {
    let m = leafy::map::<Handler>()
        .key("a")
        .center_on("1", "2")
        .zoom(3)
        .key("b")
        .center_on("4", "5")
        .zoom(6);
    let node = m.into_node();
    assert_eq!(node.key, Some("b".to_string()));
    assert_eq!(values_of(&node, "lat"), vec!["4".to_string()]);
    assert_eq!(values_of(&node, "lng"), vec!["5".to_string()]);
    assert_eq!(values_of(&node, "zoom"), vec!["6".to_string()]);
    assert_eq!(node.attrs.len(), 3);
}

#[test]
fn group_children_follow_insertion_order() {
    let a = || marker::<Handler>("1", "2").tooltip("a").on_click(one);
    let b = || circle::<Handler>("3", "4", 5).fill("b");
    let c = || geojson::<Handler>("{\"c\": 1}").key("c").on_mouseout(two);
    let group = feature_group().with(a()).with(b()).with(c());
    let node = group.into_node();
    assert_eq!(node.children.len(), 3);
    assert_eq!(plain(&node.children[0]), plain(&a().into_node()));
    assert_eq!(plain(&node.children[1]), plain(&b().into_node()));
    assert_eq!(plain(&node.children[2]), plain(&c().into_node()));
    let other = feature_group().with(c()).with(a()).with(b());
    let other_node = other.into_node();
    assert_eq!(plain(&other_node.children[0]), plain(&c().into_node()));
    assert_eq!(plain(&other_node.children[1]), plain(&a().into_node()));
    assert_eq!(plain(&other_node.children[2]), plain(&b().into_node()));
}

#[test]
fn group_keeps_equal_members_apart() {
    let group = feature_group::<Handler>().with(marker("1", "2")).with(marker("1", "2"));
    let node = group.into_node();
    assert_eq!(node.children.len(), 2);
    assert_eq!(plain(&node.children[0]), plain(&node.children[1]));
}

#[test]
fn nested_groups_render_to_their_depth() {
    let inner = feature_group::<Handler>().with(marker("1", "2"));
    let outer = feature_group().with(inner);
    let node = outer.into_node();
    assert_eq!(depth(&node), 3);
    assert_eq!(node.tag, "leafy-feature-group");
    assert_eq!(node.children.len(), 1);
    assert_eq!(node.children[0].tag, "leafy-feature-group");
    assert_eq!(node.children[0].children.len(), 1);
    assert_eq!(node.children[0].children[0].tag, "marker-kind");
    assert!(node.children[0].children[0].children.is_empty());
}

#[test]
fn depth_is_that_of_the_deepest_member() {
    let deep = feature_group::<Handler>().with(feature_group().with(feature_group()));
    let group = feature_group().with(marker("1", "2")).with(deep).with(circle("1", "2", 3));
    assert_eq!(depth(&group.into_node()), 4);
    let in_map = leafy::map().with(feature_group().with(marker::<Handler>("1", "2")));
    assert_eq!(depth(&in_map.into_node()), 3);
}

#[test]
fn group_flag_set_twice_is_set_once() {
    let g = feature_group::<Handler>().zoom_to_fit().zoom_to_fit();
    let node = g.into_node();
    assert_eq!(values_of(&node, "zoom-to-fit"), vec!["true".to_string()]);
    assert_eq!(node.attrs.len(), 1);
}
