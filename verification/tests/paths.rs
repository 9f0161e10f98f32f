use static_router::path::{components, is_among, is_servable, parent_step, place, same_place};
use static_router::request::FileRequest;
use static_router::text::{chars_of, find_from, has_prefix, same_text};

fn chars(s: &str) -> Vec<char> {
    s.chars().collect()
}

fn names(list: &[&str]) -> Vec<String> {
    list.iter().map(|s| s.to_string()).collect()
}

#[test]
fn chars_of_keeps_every_character() {
    assert_eq!(chars_of(""), Vec::<char>::new());
    assert_eq!(chars_of("a/b"), vec!['a', '/', 'b']);
    assert_eq!(chars_of("\u{e9}\u{1F600}x"), vec!['\u{e9}', '\u{1F600}', 'x']);
}

#[test]
fn prefix_and_equality_of_texts() {
    assert!(has_prefix(&chars("/static/a"), &chars("/static/")));
    assert!(has_prefix(&chars("/static/"), &chars("/static/")));
    assert!(has_prefix(&chars("abc"), &chars("")));
    assert!(!has_prefix(&chars("/static"), &chars("/static/")));
    assert!(!has_prefix(&chars("/stAtic/a"), &chars("/static/")));
    assert!(same_text(&chars("/"), &chars("/")));
    assert!(same_text(&chars(""), &chars("")));
    assert!(!same_text(&chars("/"), &chars("//")));
    assert!(!same_text(&chars("/a"), &chars("/b")));
}

#[test]
fn find_from_gives_the_next_separator() {
    let text = chars("ab/cd//e");
    assert_eq!(find_from(&text, 0, '/'), 2);
    assert_eq!(find_from(&text, 2, '/'), 2);
    assert_eq!(find_from(&text, 3, '/'), 5);
    assert_eq!(find_from(&text, 6, '/'), 6);
    assert_eq!(find_from(&text, 7, '/'), 8);
    assert_eq!(find_from(&text, 8, '/'), 8);
    assert_eq!(find_from(&text, 0, '?'), 8);
}

#[test]
fn parent_step_is_two_dots() {
    assert!(parent_step(&chars("..")));
    assert!(!parent_step(&chars(".")));
    assert!(!parent_step(&chars("...")));
    assert!(!parent_step(&chars("")));
    assert!(!parent_step(&chars("a.")));
}

fn unix() -> Vec<char> {
    Vec::new()
}

fn windows() -> Vec<char> {
    vec!['\\', ':']
}

#[test]
fn same_place_is_one_dot() {
    assert!(same_place(&chars(".")));
    assert!(!same_place(&chars("..")));
    assert!(!same_place(&chars("")));
    assert!(!same_place(&chars("a")));
    assert!(!same_place(&chars(".a")));
}

#[test]
fn is_among_finds_a_character() {
    assert!(is_among(':', &windows()));
    assert!(is_among('\\', &windows()));
    assert!(!is_among('/', &windows()));
    assert!(!is_among(':', &unix()));
}

#[test]
fn servable_segments() {
    let good = [
        "a", "a.txt", "a b", "a..b", "a.", "caf\u{e9}", "%", ".env", ".a.b", "...", "*", "*.css",
        "a*", "a<", "a>", "<", ">", "\u{0}",
    ];
    for name in good {
        assert!(is_servable(&chars(name), &unix()), "{}", name);
        assert!(is_servable(&chars(name), &windows()), "{}", name);
    }
    for name in ["", ".", "..", "a/b", "/", "../a", "a/.."] {
        assert!(!is_servable(&chars(name), &unix()), "{}", name);
        assert!(!is_servable(&chars(name), &windows()), "{}", name);
    }
    for name in ["a\\b", "\\", "c:", "a:b", ":", "..\\a"] {
        assert!(is_servable(&chars(name), &unix()), "{}", name);
        assert!(!is_servable(&chars(name), &windows()), "{}", name);
    }
}

#[test]
fn place_adds_steps_back_or_refuses() {
    let host = unix();
    assert_eq!(place(names(&["a"]), "b".to_string(), &host), Some(names(&["a", "b"])));
    assert_eq!(place(names(&[]), "b".to_string(), &host), Some(names(&["b"])));
    assert_eq!(place(names(&["a", "b"]), "..".to_string(), &host), Some(names(&["a"])));
    assert_eq!(place(names(&["a"]), "..".to_string(), &host), Some(names(&[])));
    assert_eq!(place(names(&[]), "..".to_string(), &host), Some(names(&[])));
    assert_eq!(place(names(&["a"]), ".c".to_string(), &host), Some(names(&["a", ".c"])));
    assert_eq!(place(names(&["a"]), "*b".to_string(), &host), Some(names(&["a", "*b"])));
    assert_eq!(place(names(&["a"]), "b>".to_string(), &host), Some(names(&["a", "b>"])));
    assert_eq!(place(names(&["a"]), "b:".to_string(), &host), Some(names(&["a", "b:"])));
    assert_eq!(place(names(&["a"]), "b\\c".to_string(), &host), Some(names(&["a", "b\\c"])));
    assert_eq!(place(names(&["a"]), ".".to_string(), &host), None);
    assert_eq!(place(names(&["a"]), "".to_string(), &host), None);
    assert_eq!(place(names(&["a"]), "b/c".to_string(), &host), None);
    assert_eq!(place(names(&["a"]), "../c".to_string(), &host), None);
    let host = windows();
    assert_eq!(place(names(&["a"]), "b:".to_string(), &host), None);
    assert_eq!(place(names(&["a"]), "b\\c".to_string(), &host), None);
    assert_eq!(place(names(&["a"]), "..\\c".to_string(), &host), None);
    assert_eq!(place(names(&["a"]), ".c".to_string(), &host), Some(names(&["a", ".c"])));
    assert_eq!(place(names(&["a"]), "..".to_string(), &host), Some(names(&[])));
}

#[test]
fn components_of_a_rest() {
    let host = unix();
    assert_eq!(components("", &host), Some(names(&[])));
    assert_eq!(components("/", &host), Some(names(&[])));
    assert_eq!(components("///", &host), Some(names(&[])));
    assert_eq!(components("a", &host), Some(names(&["a"])));
    assert_eq!(components("a/b/c.txt", &host), Some(names(&["a", "b", "c.txt"])));
    assert_eq!(components("/a//b/", &host), Some(names(&["a", "b"])));
    assert_eq!(components("a/../b", &host), Some(names(&["b"])));
    assert_eq!(components("../../b", &host), Some(names(&["b"])));
    assert_eq!(components("a/b/../../..", &host), Some(names(&[])));
    assert_eq!(components("a%20b/c%2Bd", &host), Some(names(&["a b", "c+d"])));
    assert_eq!(components("a+b", &host), Some(names(&["a+b"])));
    assert_eq!(components("%zz/%4", &host), Some(names(&["%zz", "%4"])));
    assert_eq!(components("a/.b", &host), Some(names(&["a", ".b"])));
    assert_eq!(components("x/../.y", &host), Some(names(&[".y"])));
    assert_eq!(components(".env", &host), Some(names(&[".env"])));
    assert_eq!(components("a%3Ab/c%5Cd", &host), Some(names(&["a:b", "c\\d"])));
    assert_eq!(components("a/./b", &host), None);
    assert_eq!(components("a%2Fb", &host), None);
    assert_eq!(components("%2e", &host), None);
    assert_eq!(components("a/%2e%2e%2f", &host), None);
    let host = windows();
    assert_eq!(components("a/../b", &host), Some(names(&["b"])));
    assert_eq!(components(".env", &host), Some(names(&[".env"])));
    assert_eq!(components("a%3Ab", &host), None);
    assert_eq!(components("a/c%5Cd", &host), None);
    assert_eq!(components("..%5C..%5Csecret", &host), None);
    assert_eq!(components("c:/x", &host), None);
}

#[test]
fn file_request_takes_servable_names_only() {
    let host = unix();
    let request = FileRequest::new("static".to_string(), names(&["a", "b.txt"]), &host).unwrap();
    assert_eq!(request.root(), "static");
    assert_eq!(request.components(), &names(&["a", "b.txt"]));
    assert_eq!(request.file_name().map(|s| s.as_str()), Some("b.txt"));
    let request = FileRequest::new("static".to_string(), names(&[]), &host).unwrap();
    assert!(request.components().is_empty());
    assert!(request.file_name().is_none());
    let request = FileRequest::new("static".to_string(), names(&[".a", "b:c"]), &host).unwrap();
    assert_eq!(request.components(), &names(&[".a", "b:c"]));
    assert!(FileRequest::new("static".to_string(), names(&["a", ".."]), &host).is_none());
    assert!(FileRequest::new("static".to_string(), names(&["..", "a"]), &host).is_none());
    assert!(FileRequest::new("static".to_string(), names(&["a", "."]), &host).is_none());
    assert!(FileRequest::new("static".to_string(), names(&["a/b"]), &host).is_none());
    assert!(FileRequest::new("static".to_string(), names(&["a", ""]), &host).is_none());
    assert!(FileRequest::new("static".to_string(), names(&[".a", "b:c"]), &windows()).is_none());
    assert!(FileRequest::new("static".to_string(), names(&["a\\b"]), &windows()).is_none());
}

#[test]
fn file_request_below_a_root() {
    let host = unix();
    let request = FileRequest::below("geojson".to_string(), "a/../b%20c/d.json", &host).unwrap();
    assert_eq!(request.root(), "geojson");
    assert_eq!(request.components(), &names(&["b c", "d.json"]));
    let request = FileRequest::below("geojson".to_string(), "a/.b", &host).unwrap();
    assert_eq!(request.components(), &names(&["a", ".b"]));
    assert!(FileRequest::below("geojson".to_string(), "a/./b", &host).is_none());
    assert!(FileRequest::below("geojson".to_string(), "a%2F..%2Fb", &host).is_none());
    assert!(FileRequest::below("geojson".to_string(), "a%5Cb", &windows()).is_none());
    let request = FileRequest::below("geojson".to_string(), "", &host).unwrap();
    assert!(request.components().is_empty());
}

#[test]
fn file_request_clone_is_the_same_request() {
    let request = FileRequest::below("static".to_string(), "x/y/z.png", &unix()).unwrap();
    let copy = request.clone();
    assert_eq!(copy.root(), request.root());
    assert_eq!(copy.components(), request.components());
}
