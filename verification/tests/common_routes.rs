use altaria::parser::body::LazyBodyReader;
use altaria::request::{
    HttpHeader, HttpHeaderMap, HttpMethod, HttpProtocol, HttpRequest, HttpScheme,
};
use altaria::router::tree::{has_well_formed_query, RouteNode};

fn pairs(map: &altaria::request::TextMap) -> Vec<(String, String)> {
    (0..map.len()).map(|i| (map.key(i).clone(), map.value(i).clone())).collect()
}

fn text_pairs(items: &[(&str, &str)]) -> Vec<(String, String)> {
    items.iter().map(|(k, v)| (k.to_string(), v.to_string())).collect()
}

#[test]
fn literal_takes_precedence_over_parameter() {
    let mut root: RouteNode<&str> = RouteNode::new();
    root.insert("/users/{id}", "by id");
    root.insert("/users/me", "me");
    let found = root.find("/users/me").expect("a route");
    assert_eq!(*found.handler, "me");
    assert!(found.params.is_empty());
    assert!(found.queries.is_empty());
}

#[test]
fn literal_takes_precedence_whatever_the_order() {
    let mut root: RouteNode<&str> = RouteNode::new();
    root.insert("/users/me", "me");
    root.insert("/users/{id}", "by id");
    let found = root.find("/users/me").expect("a route");
    assert_eq!(*found.handler, "me");
    assert!(found.params.is_empty());
    let other = root.find("/users/42").expect("a route");
    assert_eq!(*other.handler, "by id");
    assert_eq!(pairs(&other.params), text_pairs(&[("id", "42")]));
}

#[test]
fn empty_tree_matches_nothing() {
    let root: RouteNode<&str> = RouteNode::new();
    assert!(root.find("/anything").is_none());
    assert!(root.find("/").is_none());
    assert!(root.find("").is_none());
}

#[test]
fn root_route_matches_slash_and_empty_path() {
    let mut root: RouteNode<&str> = RouteNode::new();
    root.insert("/", "root");
    let slash = root.find("/").expect("a route");
    assert_eq!(*slash.handler, "root");
    assert!(slash.params.is_empty());
    let empty = root.find("").expect("a route");
    assert_eq!(*empty.handler, "root");
    assert!(empty.params.is_empty());
    assert!(root.find("/other").is_none());
}

#[test]
fn query_is_split_from_the_last_segment() {
    let mut root: RouteNode<&str> = RouteNode::new();
    root.insert("/search", "search");
    let found = root.find("/search?q=rust").expect("a route");
    assert_eq!(*found.handler, "search");
    assert!(found.params.is_empty());
    assert_eq!(pairs(&found.queries), text_pairs(&[("q", "rust")]));
    let plain = root.find("/search").expect("a route");
    assert!(plain.queries.is_empty());
    assert!(plain.params.is_empty());
}

#[test]
fn queries_keep_their_order_and_the_last_value_of_a_key() {
    let mut root: RouteNode<&str> = RouteNode::new();
    root.insert("/search", "search");
    let found = root.find("/search?q=rust&page=2&q=verus&k=a=b").expect("a route");
    assert_eq!(
        pairs(&found.queries),
        text_pairs(&[("q", "verus"), ("page", "2"), ("k", "a")])
    );
    let bare = root.find("/search?").expect("a route");
    assert!(bare.queries.is_empty());
    let empty_value = root.find("/search?q=").expect("a route");
    assert_eq!(pairs(&empty_value.queries), text_pairs(&[("q", "")]));
}

#[test]
fn queries_in_other_segments_are_not_seen() {
    let mut root: RouteNode<&str> = RouteNode::new();
    root.insert("/a/b", "ab");
    assert!(root.find("/a?x=1/b").is_none());
}

#[test]
fn malformed_queries_are_told_apart() {
    assert!(has_well_formed_query("/search?q=rust"));
    assert!(has_well_formed_query("/search"));
    assert!(has_well_formed_query("/search?"));
    assert!(has_well_formed_query(""));
    assert!(!has_well_formed_query("/search?q"));
    assert!(!has_well_formed_query("/search?q=rust&"));
    assert!(!has_well_formed_query("/search?&q=rust"));
}

#[test]
fn parameters_are_bound_in_path_order() {
    let mut root: RouteNode<u32> = RouteNode::new();
    root.insert("/shops/{shop}/items/{item}", 1);
    let found = root.find("/shops/7/items/pen?colour=blue").expect("a route");
    assert_eq!(*found.handler, 1);
    assert_eq!(pairs(&found.params), text_pairs(&[("shop", "7"), ("item", "pen")]));
    assert_eq!(pairs(&found.queries), text_pairs(&[("colour", "blue")]));
    assert!(root.find("/shops/7/items").is_none());
    assert!(root.find("/shops/7").is_none());
    assert!(root.find("/shops/7/items/pen/more").is_none());
}

#[test]
fn a_later_handler_replaces_an_earlier_one() {
    let mut root: RouteNode<u32> = RouteNode::new();
    root.insert("/a", 1);
    root.insert("a/", 2);
    assert_eq!(*root.find("/a").expect("a route").handler, 2);
}

#[test]
fn a_later_capture_name_replaces_an_earlier_one() {
    let mut root: RouteNode<u32> = RouteNode::new();
    root.insert("/a/{x}", 1);
    root.insert("/a/{y}/b", 2);
    let found = root.find("/a/1").expect("a route");
    assert_eq!(*found.handler, 1);
    assert_eq!(pairs(&found.params), text_pairs(&[("y", "1")]));
}

#[test]
fn braces_have_to_close_to_capture() {
    let mut root: RouteNode<u32> = RouteNode::new();
    root.insert("/{open", 1);
    root.insert("/{}", 2);
    assert_eq!(*root.find("/{open").expect("a route").handler, 1);
    let any = root.find("/thing").expect("a route");
    assert_eq!(*any.handler, 2);
    assert_eq!(pairs(&any.params), text_pairs(&[("", "thing")]));
}

#[test]
fn route_values_go_into_path_values() {
    let mut root: RouteNode<u32> = RouteNode::new();
    root.insert("/a/{x}", 1);
    let values = root.find("/a/1?k=v").expect("a route").into_path_values();
    assert_eq!(pairs(&values.params), text_pairs(&[("x", "1")]));
    assert_eq!(pairs(&values.queries), text_pairs(&[("k", "v")]));
}

#[test]
fn requests_know_their_content_type() {
    let mut headers = HttpHeaderMap::new();
    headers.insert(HttpHeader::ContentType, "application/json".to_string());
    let mut request = HttpRequest {
        protocol: HttpProtocol::HTTP1,
        scheme: HttpScheme::HTTP,
        path: "/".to_string(),
        method: HttpMethod::GET,
        headers,
        flow: None,
        peer_addr: "127.0.0.1:1".to_string(),
        content_length: 2,
        body_reader: LazyBodyReader::new(2),
        path_values: None,
    };
    assert_eq!(request.content_type(), Some(altaria::request::ContentType::ApplicationJson));
    assert!(request.read_body().is_none());
    assert_eq!(request.body_reader.wanted(), 2);
    assert!(!request.body_reader.supply(vec![1]));
    assert!(request.body_reader.supply(vec![1, 2]));
    assert!(!request.body_reader.supply(vec![3, 4]));
    assert_eq!(request.body_reader.wanted(), 0);
    assert_eq!(request.read_body(), Some(&vec![1, 2]));
    assert_eq!(request.body_reader.consume_all(), Some(vec![1, 2]));
}
