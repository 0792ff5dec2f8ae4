//! Uniform values: every shape of input that a shader program takes, and the
//! named slots that carry them.
//!
//! A single-precision number is held as its IEEE-754 bit pattern in a `u32`, so
//! that values can be compared and copied exactly.

use crate::texture::SharedTexture2D;
use vstd::prelude::*;
use vstd::string::*;

verus! {

/// Two single-precision components.
#[derive(Debug, Clone, Copy, PartialEq, Eq, Structural)]
pub struct Vector2 {
    pub x: u32,
    pub y: u32,
}

/// Three single-precision components.
#[derive(Debug, Clone, Copy, PartialEq, Eq, Structural)]
pub struct Vector3 {
    pub x: u32,
    pub y: u32,
    pub z: u32,
}

/// Four single-precision components.
#[derive(Debug, Clone, Copy, PartialEq, Eq, Structural)]
pub struct Vector4 {
    pub x: u32,
    pub y: u32,
    pub z: u32,
    pub w: u32,
}

/// A 3x3 matrix of single-precision elements, column after column.
#[derive(Debug, Clone, Copy, PartialEq, Eq)]
pub struct Matrix3 {
    pub elements: [u32; 9],
}

/// A 4x4 matrix of single-precision elements, column after column.
#[derive(Debug, Clone, Copy, PartialEq, Eq)]
pub struct Matrix4 {
    pub elements: [u32; 16],
}

/// The bit pattern of `1.0`.
pub const ONE: u32 = 0x3f80_0000;

/// The bit pattern of `0.0`.
pub const ZERO: u32 = 0;

impl Vector3 {
    pub fn new(x: u32, y: u32, z: u32) -> (v: Self)
        ensures
            v == (Vector3 { x, y, z }),
    {
        Vector3 { x, y, z }
    }

    /// The vector whose components are all `1.0`.
    pub fn new_one() -> (v: Self)
        ensures
            v == (Vector3 { x: ONE, y: ONE, z: ONE }),
    {
        Vector3 { x: ONE, y: ONE, z: ONE }
    }
}

/// The value of a uniform, in one of the shapes the GPU accepts.
#[derive(Debug, Clone)]
pub enum Uniform {
    Vector2(Vector2),
    Vector3(Vector3),
    Vector4(Vector4),
    Matrix3f(Matrix3),
    Matrix4f(Matrix4),
    Float(u32),
    Int(i32),
    UInt(u32),
    ArrVector2(Vec<Vector2>),
    ArrVector3(Vec<Vector3>),
    ArrVector4(Vec<Vector4>),
    ArrMatrix3f(Vec<Matrix3>),
    ArrMatrix4f(Vec<Matrix4>),
    ArrFloat(Vec<u32>),
    ArrInt(Vec<i32>),
    ArrUInt(Vec<u32>),
    /// A sampler; `None` while no texture is attached.
    Texture2D(Option<SharedTexture2D>),
}

impl Uniform {
    /// Whether the value is a sampler.
    pub open spec fn is_texture(self) -> bool {
        self is Texture2D
    }

    pub fn holds_texture(&self) -> (b: bool)
        ensures
            b == self.is_texture(),
    {
        match self {
            Uniform::Texture2D(_) => true,
            _ => false,
        }
    }
}

/// The identifier of a uniform: one of the well-known ones, or any other name
/// that a shader declares.
#[derive(Debug, Clone, PartialEq, Eq, Hash)]
pub enum UniformName {
    Color,
    MapColor,
    MapSpecular,
    Specular,
    Roughness,
    Metalness,
    AmbientLight,
    Other(String),
}

impl UniformName {
    /// The name under which shader code declares the uniform.
    pub open spec fn shader_name(self) -> Seq<char> {
        match self {
            UniformName::Color => "color"@,
            UniformName::MapColor => "map_color"@,
            UniformName::MapSpecular => "map_specular"@,
            UniformName::Specular => "specular"@,
            UniformName::Roughness => "roughness"@,
            UniformName::Metalness => "metalness"@,
            UniformName::AmbientLight => "ambient_light"@,
            UniformName::Other(name) => name@,
        }
    }

    pub fn get_name(&self) -> (name: String)
        ensures
            name@ == self.shader_name(),
    {
        match self {
            UniformName::Color => String::from_str("color"),
            UniformName::MapColor => String::from_str("map_color"),
            UniformName::MapSpecular => String::from_str("map_specular"),
            UniformName::Specular => String::from_str("specular"),
            UniformName::Roughness => String::from_str("roughness"),
            UniformName::Metalness => String::from_str("metalness"),
            UniformName::AmbientLight => String::from_str("ambient_light"),
            UniformName::Other(name) => name.clone(),
        }
    }
}

/// A uniform under its shader name, with the flag that says whether the value
/// has changed since it was last sent to the GPU.
#[derive(Debug, Clone)]
pub struct UniformItem {
    pub name: String,
    pub uniform: Uniform,
    pub need_update: bool,
}

impl UniformItem {
    /// A freshly written uniform: it has yet to be sent.
    pub fn new(name: String, uniform: Uniform) -> (item: Self)
        ensures
            item == (UniformItem { name, uniform, need_update: true }),
    {
        UniformItem { name, uniform, need_update: true }
    }
}

} // verus!
