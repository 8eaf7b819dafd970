use leafy::{circle, feature_group, geojson, marker, Event, Feature, Node};
use std::rc::Rc;

#[derive(Debug, Clone, PartialEq)]
enum Msg {
    A,
    B,
    C,
}

type Handler = Rc<dyn Fn() -> Msg>;

fn handler(msg: Msg) -> Handler {
    Rc::new(move || msg.clone())
}

fn attrs<H>(node: &Node<'_, H>) -> Vec<(String, String)> {
    node.attrs.iter().map(|a| (a.name.to_string(), a.value.clone())).collect()
}

fn pair(name: &str, value: &str) -> (String, String) {
    (name.to_string(), value.to_string())
}

fn depth<H>(node: &Node<'_, H>) -> usize {
    1 + node.children.iter().map(|c| depth(c)).max().unwrap_or(0)
}

#[test]
fn marker_with_tooltip() {
    let lat: f64 = 59.91;
    let lng: f64 = 10.74;
    let m = marker::<Handler>(&lat.to_string(), &lng.to_string()).tooltip("Hello Oslo!");
    let node = m.into_node();
    assert_eq!(node.tag, "marker-kind");
    assert_eq!(node.key, None);
    assert_eq!(
        attrs(&node),
        vec![pair("lat", "59.91"), pair("lng", "10.74"), pair("tooltip", "Hello Oslo!")]
    );
    assert!(node.attrs.iter().all(|a| a.name != "tooltip-open"));
    assert!(node.events.is_empty());
    assert!(node.children.is_empty());
}

#[test]
fn circle_click_handler_yields_its_message_each_time() {
    let zero: f64 = 0.0;
    let c = circle::<Handler>(&zero.to_string(), &zero.to_string(), 5).on_click(handler(Msg::A));
    let node = c.into_node();
    assert_eq!(node.events.len(), 1);
    assert_eq!(node.events[0].event, Event::Click);
    assert_eq!((node.events[0].handler)(), Msg::A);
    assert_eq!((node.events[0].handler)(), Msg::A);
    assert_eq!(attrs(&node), vec![pair("lat", "0"), pair("lng", "0"), pair("radius", "5")]);
}

#[test]
fn handler_outlives_a_rendering() {
    let c = circle::<Handler>("1", "2", 3).on_mouseover(handler(Msg::B));
    {
        let first = c.into_node();
        assert_eq!((first.events[0].handler)(), Msg::B);
    }
    let second = c.into_node();
    assert_eq!(second.events.len(), 1);
    assert_eq!(second.events[0].event, Event::PointerEnter);
    assert_eq!((second.events[0].handler)(), Msg::B);
}

#[test]
fn map_alone_renders_an_empty_root() {
    let m = leafy::map::<Handler>();
    let node = m.into_node();
    assert_eq!(node.tag, "leafy-map");
    assert_eq!(node.key, None);
    assert!(node.attrs.is_empty());
    assert!(node.events.is_empty());
    assert!(node.children.is_empty());
}

#[test]
fn map_with_view_state() {
    let m = leafy::map::<Handler>().key("main").center_on("59.9147857", "10.7470423").zoom(12);
    let node = m.into_node();
    assert_eq!(node.tag, "leafy-map");
    assert_eq!(node.key, Some("main".to_string()));
    assert_eq!(
        attrs(&node),
        vec![pair("lat", "59.9147857"), pair("lng", "10.7470423"), pair("zoom", "12")]
    );
}

#[test]
fn map_with_zoom_only() {
    let m = leafy::map::<Handler>().zoom(-3);
    let node = m.into_node();
    assert_eq!(attrs(&node), vec![pair("zoom", "-3")]);
}

#[test]
fn map_renders_features_as_children() {
    let group = feature_group()
        .with(geojson("{}"))
        .with(marker("59.9147857", "10.7470423").tooltip("Hello Oslo!"))
        .zoom_to_fit();
    let m = leafy::map::<Handler>().with(group).with(circle("1", "2", 3));
    let node = m.into_node();
    assert_eq!(node.children.len(), 2);
    assert_eq!(node.children[0].tag, "leafy-feature-group");
    assert_eq!(attrs(&node.children[0]), vec![pair("zoom-to-fit", "true")]);
    assert_eq!(node.children[0].children.len(), 2);
    assert_eq!(node.children[0].children[0].tag, "leafy-geojson");
    assert_eq!(node.children[0].children[1].tag, "marker-kind");
    assert_eq!(node.children[1].tag, "leafy-circle");
    assert_eq!(depth(&node), 3);
}

#[test]
fn into_nodes_holds_the_root_alone() {
    let m = leafy::map::<Handler>().zoom(4).with(marker("1", "2"));
    let nodes = m.into_nodes();
    assert_eq!(nodes.len(), 1);
    assert_eq!(nodes[0].tag, "leafy-map");
    assert_eq!(attrs(&nodes[0]), vec![pair("zoom", "4")]);
    assert_eq!(nodes[0].children.len(), 1);
    assert_eq!(nodes[0].children[0].tag, "marker-kind");
}

#[test]
fn circle_with_every_field() {
    let c = circle::<Handler>("59.91", "10.74", 250)
        .stroke("#ff0000")
        .stroke_width(3)
        .stroke_dasharray("5, 10")
        .fill("blue")
        .fill_opacity("0.25")
        .zoom_to_fit()
        .tooltip("Here")
        .tooltip_open(false)
        .on_click(handler(Msg::A))
        .on_mouseover(handler(Msg::B))
        .on_mouseout(handler(Msg::C));
    let node = c.into_node();
    assert_eq!(node.tag, "leafy-circle");
    assert_eq!(node.key, None);
    assert_eq!(
        attrs(&node),
        vec![
            pair("lat", "59.91"),
            pair("lng", "10.74"),
            pair("radius", "250"),
            pair("stroke", "#ff0000"),
            pair("stroke-width", "3"),
            pair("stroke-dasharray", "5, 10"),
            pair("fill", "blue"),
            pair("fill-opacity", "0.25"),
            pair("zoom-to-fit", "true"),
            pair("tooltip", "Here"),
            pair("tooltip-open", "false"),
        ]
    );
    assert_eq!(node.events.len(), 3);
    assert_eq!(node.events[0].event, Event::Click);
    assert_eq!(node.events[1].event, Event::PointerEnter);
    assert_eq!(node.events[2].event, Event::PointerLeave);
    assert_eq!((node.events[0].handler)(), Msg::A);
    assert_eq!((node.events[1].handler)(), Msg::B);
    assert_eq!((node.events[2].handler)(), Msg::C);
    assert!(node.children.is_empty());
}

#[test]
fn geojson_with_every_field() {
    let data = "{\"type\": \"Feature\", \"geometry\": null}";
    let g = geojson::<Handler>(data)
        .key("oslo")
        .stroke("green")
        .stroke_width(-2)
        .stroke_dasharray("4")
        .fill("none")
        .fill_opacity("1")
        .zoom_to_fit()
        .tooltip("Oslo")
        .tooltip_open(true)
        .on_click(handler(Msg::C))
        .on_mouseover(handler(Msg::A))
        .on_mouseout(handler(Msg::B));
    let node = g.into_node();
    assert_eq!(node.tag, "leafy-geojson");
    assert_eq!(node.key, Some("oslo".to_string()));
    assert_eq!(
        attrs(&node),
        vec![
            pair("data", data),
            pair("stroke", "green"),
            pair("stroke-width", "-2"),
            pair("stroke-dasharray", "4"),
            pair("fill", "none"),
            pair("fill-opacity", "1"),
            pair("zoom-to-fit", "true"),
            pair("tooltip", "Oslo"),
            pair("tooltip-open", "true"),
        ]
    );
    assert_eq!(node.events.len(), 3);
    assert_eq!((node.events[0].handler)(), Msg::C);
    assert_eq!((node.events[1].handler)(), Msg::A);
    assert_eq!((node.events[2].handler)(), Msg::B);
}

#[test]
fn geojson_data_is_not_validated() {
    let g = geojson::<Handler>("not json at all <>&\"");
    let node = g.into_node();
    assert_eq!(attrs(&node), vec![pair("data", "not json at all <>&\"")]);
}

#[test]
fn coordinates_are_not_validated() {
    let m = marker::<Handler>("1000", "-1000");
    let node = m.into_node();
    assert_eq!(attrs(&node), vec![pair("lat", "1000"), pair("lng", "-1000")]);
}

#[test]
fn mouse_handlers_alone() {
    let m = marker::<Handler>("1", "2").on_mouseout(handler(Msg::C)).on_mouseover(handler(Msg::B));
    let node = m.into_node();
    assert_eq!(node.events.len(), 2);
    assert_eq!(node.events[0].event, Event::PointerEnter);
    assert_eq!((node.events[0].handler)(), Msg::B);
    assert_eq!(node.events[1].event, Event::PointerLeave);
    assert_eq!((node.events[1].handler)(), Msg::C);
}

#[test]
fn empty_group() {
    let g = feature_group::<Handler>();
    let node = g.into_node();
    assert_eq!(node.tag, "leafy-feature-group");
    assert!(node.attrs.is_empty());
    assert!(node.events.is_empty());
    assert!(node.children.is_empty());
    assert_eq!(depth(&node), 1);
}

#[test]
fn a_feature_as_a_kind_renders_the_same() {
    let kind = marker::<Handler>("1", "2").tooltip("x").into_kind();
    let node = kind.into_node();
    assert_eq!(node.tag, "marker-kind");
    assert_eq!(attrs(&node), vec![pair("lat", "1"), pair("lng", "2"), pair("tooltip", "x")]);
    let again = kind.into_kind();
    assert_eq!(again.into_node().tag, "marker-kind");
}

#[test]
fn text_reaches_the_node_unchanged() {
    let text = "Blåbær & \"snø\" <1> ☃";
    let m = marker::<Handler>("59.91", "10.74").tooltip(text);
    let node = m.into_node();
    assert_eq!(node.attrs[2].name, "tooltip");
    assert_eq!(node.attrs[2].value, text);
    let g = geojson::<Handler>(text).key(text).stroke(text);
    let node = g.into_node();
    assert_eq!(node.key, Some(text.to_string()));
    assert_eq!(attrs(&node), vec![pair("data", text), pair("stroke", text)]);
}

#[test]
fn empty_text_is_set_text() {
    let c = circle::<Handler>("", "", 0).tooltip("").fill("");
    let node = c.into_node();
    assert_eq!(
        attrs(&node),
        vec![
            pair("lat", ""),
            pair("lng", ""),
            pair("radius", "0"),
            pair("fill", ""),
            pair("tooltip", "")
        ]
    );
}

#[test]
fn limits_of_the_numbers() {
    let c = circle::<Handler>("1", "2", u32::MAX).stroke_width(i32::MIN);
    let node = c.into_node();
    assert_eq!(node.attrs[2].value, "4294967295");
    assert_eq!(node.attrs[3].value, "-2147483648");
    let m = leafy::map::<Handler>().zoom(i32::MAX);
    assert_eq!(attrs(&m.into_node()), vec![pair("zoom", "2147483647")]);
}

fn tag_of<F: Feature<Handler>>(feature: &F) -> String {
    feature.into_node().tag.to_string()
}

#[test]
fn each_kind_has_its_tag() {
    assert_eq!(tag_of(&marker("1", "2")), "marker-kind");
    assert_eq!(tag_of(&circle("1", "2", 3)), "leafy-circle");
    assert_eq!(tag_of(&geojson("{}")), "leafy-geojson");
    assert_eq!(tag_of(&feature_group()), "leafy-feature-group");
    assert_eq!(tag_of(&marker("1", "2").into_kind()), "marker-kind");
    assert_eq!(tag_of(&circle("1", "2", 3).into_kind()), "leafy-circle");
    assert_eq!(tag_of(&geojson("{}").into_kind()), "leafy-geojson");
    assert_eq!(tag_of(&feature_group().into_kind()), "leafy-feature-group");
    assert_eq!(leafy::map::<Handler>().into_node().tag, "leafy-map");
}

#[test]
fn rendering_twice_gives_the_same() {
    let group = feature_group::<Handler>()
        .with(marker("1", "2").tooltip("a"))
        .with(circle("3", "4", 5).stroke_width(6))
        .zoom_to_fit();
    let first = group.into_node();
    let second = group.into_node();
    assert_eq!(attrs(&first), attrs(&second));
    assert_eq!(first.children.len(), second.children.len());
    for (a, b) in first.children.iter().zip(second.children.iter()) {
        assert_eq!(a.tag, b.tag);
        assert_eq!(attrs(a), attrs(b));
    }
}
