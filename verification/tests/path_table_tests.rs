use scenedraw::cache::KeyMap;
use scenedraw::texpath::with_tex_ext_chars;

fn ext(p: &str) -> String {
    let chars: Vec<char> = p.chars().collect();
    with_tex_ext_chars(&chars).into_iter().collect()
}

#[test]
fn extension_is_replaced_with_tex() {
    assert_eq!(ext("assets/sprite.json"), "assets/sprite.tex");
    assert_eq!(ext("x.a.b"), "x.a.tex");
    assert_eq!(ext("trailing."), "trailing.tex");
}

#[test]
fn missing_extension_gets_tex_appended() {
    assert_eq!(ext("noext"), "noext.tex");
    assert_eq!(ext("dir.d/file"), "dir.d/file.tex");
    assert_eq!(ext(".hidden"), ".hidden.tex");
}

#[test]
fn pathological_names_stay_unchanged() {
    assert_eq!(ext("a/"), "a/");
    assert_eq!(ext(""), "");
    assert_eq!(ext("a/.."), "a/..");
    assert_eq!(ext("."), ".");
}

#[test]
fn table_lookup_finds_inserted_keys() {
    let mut m: KeyMap<String> = KeyMap::new();
    m.insert(String::from("a.png"), String::from("one"));
    m.insert(String::from("b.png"), String::from("two"));
    let ka: Vec<char> = "a.png".chars().collect();
    let kb: Vec<char> = "b.png".chars().collect();
    let kc: Vec<char> = "c.png".chars().collect();
    assert_eq!(m.get(&ka), Some(&String::from("one")));
    assert_eq!(m.get_str("b.png"), Some(&String::from("two")));
    assert_eq!(m.get(&kb), Some(&String::from("two")));
    assert_eq!(m.get(&kc), None);
}

#[test]
fn inserting_an_existing_key_replaces_its_value() {
    let mut m: KeyMap<u64> = KeyMap::new();
    m.insert(String::from("k"), 1);
    m.insert(String::from("k"), 2);
    let k: Vec<char> = "k".chars().collect();
    assert_eq!(m.get(&k), Some(&2));
}
