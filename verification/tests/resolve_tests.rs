use std::rc::Rc;

use scenedraw::cache::{KeyMap, Texture};
use scenedraw::draw::DrawTextureObject;
use scenedraw::model::{Object, Visible, VisibleValue};
use scenedraw::vectors::{Component, Vectors};

fn base_object() -> Object {
    Object {
        castshadow: None,
        clampuvs: None,
        disablepropagation: false,
        id: 1,
        image: Some(String::from("sprite.png")),
        locktransforms: None,
        name: String::from("sprite"),
        origin: Some(Vectors::Vectors(String::from("1 2 3"))),
        scale: None,
        size: Some(Vectors::Vectors(String::from("10 20"))),
        effects: vec![],
        alpha: Some(0.25f64.to_bits()),
        angles: None,
        instanceoverride: None,
        particle: None,
        solid: None,
        visible: None,
        animationlayers: vec![],
        attachment: None,
        parent: None,
        maxtime: None,
        mintime: None,
        muteineditor: None,
        playbackmode: None,
        sound: vec![],
        startsilent: None,
        volume: None,
    }
}

fn tables() -> (KeyMap<String>, KeyMap<Rc<Texture>>) {
    let mut jsons: KeyMap<String> = KeyMap::new();
    jsons.insert(
        String::from("sprite.png"),
        String::from("assets/sprite.json"),
    );
    let mut textures: KeyMap<Rc<Texture>> = KeyMap::new();
    textures.insert(
        String::from("assets/sprite.tex"),
        Rc::new(Texture {
            id: 7,
            width: 64,
            height: 32,
        }),
    );
    (jsons, textures)
}

fn num(x: f64) -> Component {
    Component::Num(x.to_bits())
}

fn tok(s: &str) -> Component {
    Component::Tok(s.chars().collect())
}

#[test]
fn full_object_resolves() {
    let (jsons, textures) = tables();
    let d = DrawTextureObject::new(&base_object(), &jsons, &textures)
        .expect("object should resolve");
    assert_eq!(d.texture.id, 7);
    assert_eq!(d.origin.x, tok("1"));
    assert_eq!(d.origin.y, tok("2"));
    assert_eq!(d.origin.z, tok("3"));
    assert_eq!(d.size.x, tok("10"));
    assert_eq!(d.size.y, tok("20"));
    // absent angles and scale default to the zero scalar, broadcast
    assert_eq!(d.angles.x, num(0.0));
    assert_eq!(d.angles.z, num(0.0));
    assert_eq!(d.scale.y, num(0.0));
    // opacity is fixed at one; the document alpha of 0.25 is ignored
    assert_eq!(d.alpha, 1.0f64.to_bits());
}

#[test]
fn missing_origin_never_resolves() {
    let (jsons, textures) = tables();
    let mut o = base_object();
    o.origin = None;
    assert!(DrawTextureObject::new(&o, &jsons, &textures).is_none());
}

#[test]
fn missing_size_never_resolves() {
    let (jsons, textures) = tables();
    let mut o = base_object();
    o.size = None;
    assert!(DrawTextureObject::new(&o, &jsons, &textures).is_none());
}

#[test]
fn plain_false_excludes_object() {
    let (jsons, textures) = tables();
    let mut o = base_object();
    o.visible = Some(VisibleValue::Plain(false));
    assert!(DrawTextureObject::new(&o, &jsons, &textures).is_none());
}

#[test]
fn wrapped_false_excludes_object() {
    let (jsons, textures) = tables();
    let mut o = base_object();
    o.visible = Some(VisibleValue::Wrapped(Visible {
        user: String::from("editor"),
        value: false,
    }));
    assert!(DrawTextureObject::new(&o, &jsons, &textures).is_none());
}

#[test]
fn true_visibility_keeps_object() {
    let (jsons, textures) = tables();
    let mut o = base_object();
    o.visible = Some(VisibleValue::Plain(true));
    assert!(DrawTextureObject::new(&o, &jsons, &textures).is_some());
    o.visible = Some(VisibleValue::Wrapped(Visible {
        user: String::from("editor"),
        value: true,
    }));
    assert!(DrawTextureObject::new(&o, &jsons, &textures).is_some());
}

#[test]
fn malformed_present_angles_fail_resolution() {
    let (jsons, textures) = tables();
    let mut o = base_object();
    o.angles = Some(Vectors::Vectors(String::from("0 bad 0")));
    assert!(DrawTextureObject::new(&o, &jsons, &textures).is_none());
}

#[test]
fn wrong_component_count_fails_resolution() {
    let (jsons, textures) = tables();
    let mut o = base_object();
    o.origin = Some(Vectors::Vectors(String::from("1 2")));
    assert!(DrawTextureObject::new(&o, &jsons, &textures).is_none());
}

#[test]
fn scalar_origin_broadcasts_to_all_axes() {
    let (jsons, textures) = tables();
    let mut o = base_object();
    o.origin = Some(Vectors::Scaler(5.0f64.to_bits()));
    let d = DrawTextureObject::new(&o, &jsons, &textures).expect("scalar broadcasts");
    assert_eq!(d.origin.x, num(5.0));
    assert_eq!(d.origin.y, num(5.0));
    assert_eq!(d.origin.z, num(5.0));
}

#[test]
fn missing_image_or_mappings_fail_resolution() {
    let (jsons, textures) = tables();
    let mut o = base_object();
    o.image = None;
    assert!(DrawTextureObject::new(&o, &jsons, &textures).is_none());

    let mut o = base_object();
    o.image = Some(String::from("unknown.png"));
    assert!(DrawTextureObject::new(&o, &jsons, &textures).is_none());

    // a texture under the unreplaced extension is not found
    let mut textures2: KeyMap<Rc<Texture>> = KeyMap::new();
    textures2.insert(
        String::from("assets/sprite.json"),
        Rc::new(Texture {
            id: 8,
            width: 1,
            height: 1,
        }),
    );
    let o = base_object();
    assert!(DrawTextureObject::new(&o, &jsons, &textures2).is_none());
}

#[test]
fn same_image_shares_the_texture_resource() {
    let (jsons, textures) = tables();
    let o1 = base_object();
    let mut o2 = base_object();
    o2.id = 2;
    o2.origin = Some(Vectors::Vectors(String::from("4 5 6")));
    let d1 = DrawTextureObject::new(&o1, &jsons, &textures).unwrap();
    let d2 = DrawTextureObject::new(&o2, &jsons, &textures).unwrap();
    assert!(Rc::ptr_eq(&d1.texture, &d2.texture), "same resource, not a copy");
}
