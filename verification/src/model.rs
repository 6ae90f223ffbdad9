//! The typed scene document: camera, general render settings, and the ordered
//! object list. Numeric fields hold IEEE-754 bit patterns (`u64`); decoding
//! the on-disk document into this model is the host's work.
use vstd::prelude::*;

verus! {

use crate::vectors::Vectors;

/// The root of a scene document.
pub struct Root {
    pub camera: Camera,
    pub general: General,
    pub objects: Vec<Object>,
    pub version: i64,
}

/// The scene camera: eye, center and up vectors.
pub struct Camera {
    pub center: Vectors,
    pub eye: Vectors,
    pub up: Vectors,
}

/// General render settings of the scene.
pub struct General {
    pub ambientcolor: Vectors,
    pub bloom: bool,
    pub bloomhdrfeather: u64,
    pub bloomhdriterations: i64,
    pub bloomhdrscatter: u64,
    pub bloomhdrstrength: u64,
    pub bloomhdrthreshold: u64,
    pub bloomstrength: u64,
    pub bloomthreshold: u64,
    pub bloomtint: Vectors,
    pub camerafade: bool,
    pub cameraparallax: bool,
    pub cameraparallaxamount: u64,
    pub cameraparallaxdelay: u64,
    pub cameraparallaxmouseinfluence: u64,
    pub camerapreview: bool,
    pub camerashake: Camerashake,
    pub camerashakeamplitude: u64,
    pub camerashakeroughness: u64,
    pub camerashakespeed: u64,
    pub clearcolor: Vectors,
    pub clearenabled: bool,
    pub farz: u64,
    pub fov: u64,
    pub gravitydirection: Vectors,
    pub gravitystrength: u64,
    pub hdr: bool,
    pub nearz: u64,
    pub orthogonalprojection: Orthogonalprojection,
    pub perspectiveoverridefov: u64,
    pub skylightcolor: Vectors,
    pub winddirection: Vectors,
    pub windenabled: bool,
    pub windstrength: u64,
    pub zoom: u64,
}

/// A camera shake setting with its author field.
pub struct Camerashake {
    pub user: String,
    pub value: bool,
}

/// The orthogonal projection extent.
pub struct Orthogonalprojection {
    pub height: i64,
    pub width: i64,
}

/// The wrapped visibility encoding: a flag with its author field.
pub struct Visible {
    pub user: String,
    pub value: bool,
}

/// A visibility value as a document carries it: either a plain flag or the
/// wrapped encoding. Producers emit either; both are tolerated.
pub enum VisibleValue {
    Plain(bool),
    Wrapped(Visible),
}

/// One scene object: a potential renderable sprite plus metadata.
pub struct Object {
    pub castshadow: Option<bool>,
    pub clampuvs: Option<bool>,
    pub disablepropagation: bool,
    pub id: i64,
    pub image: Option<String>,
    pub locktransforms: Option<bool>,
    pub name: String,
    pub origin: Option<Vectors>,
    pub scale: Option<Vectors>,
    pub size: Option<Vectors>,
    pub effects: Vec<Effect>,
    pub alpha: Option<u64>,
    pub angles: Option<Vectors>,
    pub instanceoverride: Option<Instanceoverride>,
    pub particle: Option<String>,
    pub solid: Option<bool>,
    pub visible: Option<VisibleValue>,
    pub animationlayers: Vec<Animationlayer>,
    pub attachment: Option<String>,
    pub parent: Option<i64>,
    pub maxtime: Option<u64>,
    pub mintime: Option<u64>,
    pub muteineditor: Option<bool>,
    pub playbackmode: Option<String>,
    pub sound: Vec<String>,
    pub startsilent: Option<bool>,
    pub volume: Option<u64>,
}

/// An effect attached to an object.
pub struct Effect {
    pub file: String,
    pub id: i64,
    pub name: String,
    pub passes: Vec<Pass>,
    pub visible: Option<VisibleValue>,
}

/// One pass of an effect.
pub struct Pass {
    pub constantshadervalues: Option<Constantshadervalues>,
    pub id: i64,
    pub combos: Option<Combos>,
    pub textures: Vec<Option<String>>,
}

/// Constant shader inputs of an effect pass.
pub struct Constantshadervalues {
    pub direction: Option<u64>,
    pub exponent: Option<u64>,
    pub scale: Option<u64>,
    pub speed: Option<u64>,
    pub strength: Option<u64>,
    pub bounds: Option<String>,
    pub friction: Option<String>,
    pub alpha: Option<u64>,
    pub repeat: Option<String>,
    pub speedx: Option<u64>,
    pub speedy: Option<i64>,
    pub color: Option<String>,
    pub animationspeed: Option<u64>,
    pub ratio: Option<i64>,
    pub ripplestrength: Option<u64>,
    pub scrolldirection: Option<u64>,
    pub scrollspeed: Option<u64>,
    pub point0: Option<String>,
    pub point1: Option<String>,
    pub point2: Option<String>,
    pub point3: Option<String>,
    pub aperture: Option<u64>,
    pub opacity: Option<Opacity>,
    pub gamma: Option<u64>,
    pub highlights: Option<u64>,
    pub tint: Option<String>,
    pub opacity2: Option<u64>,
    pub radius: Option<i64>,
    pub gamma2: Option<i64>,
    pub threshold: Option<i64>,
}

/// An opacity setting with its author field.
pub struct Opacity {
    pub user: String,
    pub value: i64,
}

/// Shader combination switches of an effect pass.
pub struct Combos {
    pub vertical: Option<i64>,
    pub precise: Option<i64>,
    pub blendmode: Option<i64>,
}

/// Per-instance particle overrides of an object.
pub struct Instanceoverride {
    pub count: u64,
    pub id: i64,
    pub lifetime: Option<u64>,
    pub rate: Option<u64>,
    pub size: Option<u64>,
    pub speed: u64,
    pub alpha: Option<u64>,
}

/// One animation layer of an object.
pub struct Animationlayer {
    pub additive: bool,
    pub animation: i64,
    pub blend: u64,
    pub blendin: bool,
    pub blendout: bool,
    pub blendtime: u64,
    pub id: i64,
    pub name: String,
    pub rate: u64,
    pub visible: bool,
}

/// A model asset description.
pub struct Model {
    pub autosize: bool,
    pub cropoffset: Option<String>,
    pub material: String,
    pub puppet: Option<String>,
}

} // verus!
