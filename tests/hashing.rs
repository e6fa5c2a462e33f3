use index_core::{content_id, dedup_input, Attributes};

fn attrs(pairs: &[(&str, &str)]) -> Attributes {
    let mut a = Attributes::new();
    for (k, v) in pairs {
        a.insert(k.to_string(), v.to_string());
    }
    a
}

fn fields(names: &[&str]) -> Vec<String> {
    names.iter().map(|s| s.to_string()).collect()
}

#[test]
fn raw_text_is_hashed_without_dedup_fields() {
    let id = content_id(&Vec::new(), &Attributes::new(), &"hello world".to_string());
    assert_eq!(id, "5eb63bbbe01eeed093cb22bb8f5acdc3");
}

#[test]
fn empty_text_digest() {
    let id = content_id(&Vec::new(), &Attributes::new(), &String::new());
    assert_eq!(id, "d41d8cd98f00b204e9800998ecf8427e");
}

#[test]
fn dedup_input_concatenates_in_field_order() {
    let a = attrs(&[("url", "https://google.com"), ("user_id", "5"), ("other", "x")]);
    let input = dedup_input(&fields(&["user_id", "url"]), &a, &"test".to_string());
    assert_eq!(input, "5https://google.com");
    let input = dedup_input(&fields(&["url", "user_id"]), &a, &"test".to_string());
    assert_eq!(input, "https://google.com5");
}

#[test]
fn missing_dedup_field_contributes_nothing() {
    let a = attrs(&[("user_id", "5")]);
    let input = dedup_input(&fields(&["user_id", "url"]), &a, &"test".to_string());
    assert_eq!(input, "5");
    let none = dedup_input(&fields(&["url"]), &a, &"test".to_string());
    assert_eq!(none, "");
}

#[test]
fn text_is_ignored_with_dedup_fields() {
    let a = attrs(&[("user_id", "5"), ("url", "https://google.com")]);
    let f = fields(&["user_id", "url"]);
    let id1 = content_id(&f, &a, &"test".to_string());
    let id2 = content_id(&f, &a, &"test1".to_string());
    assert_eq!(id1, id2);
    let direct = content_id(&Vec::new(), &Attributes::new(), &"5https://google.com".to_string());
    assert_eq!(id1, direct);
    assert_ne!(id1, "5https://google.com");
}

#[test]
fn different_texts_differ_without_dedup_fields() {
    let a = attrs(&[("user_id", "5")]);
    let id1 = content_id(&Vec::new(), &a, &"test".to_string());
    let id2 = content_id(&Vec::new(), &a, &"test1".to_string());
    assert_ne!(id1, id2);
    assert_eq!(id1, "098f6bcd4621d373cade4e832627b4f6");
}

#[test]
fn dedup_values_from_other_attributes_do_not_matter() {
    let f = fields(&["user_id", "url"]);
    let a1 = attrs(&[("user_id", "5"), ("url", "u"), ("lang", "en")]);
    let a2 = attrs(&[("lang", "fr"), ("url", "u"), ("user_id", "5")]);
    assert_eq!(content_id(&f, &a1, &"a".to_string()), content_id(&f, &a2, &"b".to_string()));
    let a3 = attrs(&[("user_id", "6"), ("url", "u")]);
    assert_ne!(content_id(&f, &a1, &"a".to_string()), content_id(&f, &a3, &"a".to_string()));
}

#[test]
fn attributes_insert_replaces() {
    let mut a = Attributes::new();
    assert_eq!(a.len(), 0);
    a.insert("k".to_string(), "1".to_string());
    a.insert("j".to_string(), "2".to_string());
    a.insert("k".to_string(), "3".to_string());
    assert_eq!(a.len(), 2);
    assert_eq!(a.get(&"k".to_string()), Some(&"3".to_string()));
    assert_eq!(a.get(&"j".to_string()), Some(&"2".to_string()));
    assert_eq!(a.get(&"x".to_string()), None);
    assert_eq!(
        a.to_vec(),
        vec![("k".to_string(), "3".to_string()), ("j".to_string(), "2".to_string())]
    );
}
