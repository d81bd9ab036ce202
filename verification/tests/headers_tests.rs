use envoy_extension_core::headers::Headers;

#[test]
fn lookup_returns_the_first_match() {
    let mut h = Headers::new();
    h.push(String::from("set-cookie"), String::from("a=1"));
    h.push(String::from("content-type"), String::from("text/plain"));
    h.push(String::from("set-cookie"), String::from("b=2"));

    // duplicate names are preserved in delivery order; point lookup answers
    // the first one
    assert_eq!(h.get("set-cookie"), Some(&String::from("a=1")));
    assert_eq!(h.get("content-type"), Some(&String::from("text/plain")));
    assert_eq!(h.len(), 3);
}

#[test]
fn lookup_of_an_absent_name_is_none() {
    let mut h = Headers::new();
    h.push(String::from("host"), String::from("example.test"));
    assert_eq!(h.get("authorization"), None);
    assert_eq!(Headers::new().get("host"), None);
}

#[test]
fn empty_value_is_still_a_match() {
    let mut h = Headers::new();
    h.push(String::from("x-empty"), String::from(""));
    assert_eq!(h.get("x-empty"), Some(&String::from("")));
}
