//! Binding a material's uniforms to a linked program, and sending them.
//!
//! Nothing here calls the graphics driver. A function that decides what the
//! GPU should be told returns the calls as a list of [`GlCall`] values, in the
//! order in which they are to be made.

use crate::error::ShaderError;
use crate::error::ShaderErrorView;
use crate::texture::SharedTexture2D;
use crate::uniform::Matrix3;
use crate::uniform::Matrix4;
use crate::uniform::Uniform;
use crate::uniform::UniformItem;
use crate::uniform::Vector2;
use crate::uniform::Vector3;
use crate::uniform::Vector4;
use vstd::prelude::*;
use vstd::string::*;

verus! {

/// The stage of the pipeline that a piece of shader text belongs to.
#[derive(Debug, Clone, Copy, PartialEq, Eq, Structural)]
pub enum ProgramType {
    NoProgram,
    Vertex,
    Fragment,
}

/// The location that the driver reports for a uniform the program does not use.
pub const NOT_FOUND: i32 = -1;

/// The texture slot of a uniform that is no sampler.
pub const NO_SLOT: i32 = -1;

/// Where a uniform lives in a linked program, and, for a sampler, the texture
/// unit it reads from.
#[derive(Debug, Clone, Copy, PartialEq, Eq, Structural)]
pub struct UniformLocation {
    pub location: i32,
    pub texture_slot: i32,
}

/// A program with the text of its two stages and the locations of its
/// uniforms, one entry for each uniform of the material, in the same order.
#[derive(Debug)]
pub struct GLShaderProgramID {
    pub fs_source: String,
    pub vs_source: String,
    pub id: u32,
    pub uniform_locations: Vec<UniformLocation>,
}

/// One call of the graphics API. Single-precision data travels as bit patterns.
#[allow(inconsistent_fields)]
#[derive(Debug, Clone)]
pub enum GlCall {
    UseProgram { program: u32 },
    Uniform1f { location: i32, value: u32 },
    Uniform1i { location: i32, value: i32 },
    Uniform1ui { location: i32, value: u32 },
    Uniform1fv { location: i32, count: i32, data: Vec<u32> },
    Uniform2fv { location: i32, count: i32, data: Vec<u32> },
    Uniform3fv { location: i32, count: i32, data: Vec<u32> },
    Uniform4fv { location: i32, count: i32, data: Vec<u32> },
    Uniform1iv { location: i32, count: i32, data: Vec<i32> },
    Uniform1uiv { location: i32, count: i32, data: Vec<u32> },
    UniformMatrix3fv { location: i32, count: i32, transpose: bool, data: Vec<u32> },
    UniformMatrix4fv { location: i32, count: i32, transpose: bool, data: Vec<u32> },
    /// Makes texture unit number `unit` the active one.
    ActiveTexture { unit: u32 },
    /// Binds the texture to the active unit, or unbinds with `None`.
    BindTexture2D { texture: Option<SharedTexture2D> },
}

/// What a [`GlCall`] says.
#[allow(inconsistent_fields)]
pub ghost enum GlCallView {
    UseProgram { program: u32 },
    Uniform1f { location: i32, value: u32 },
    Uniform1i { location: i32, value: i32 },
    Uniform1ui { location: i32, value: u32 },
    Uniform1fv { location: i32, count: i32, data: Seq<u32> },
    Uniform2fv { location: i32, count: i32, data: Seq<u32> },
    Uniform3fv { location: i32, count: i32, data: Seq<u32> },
    Uniform4fv { location: i32, count: i32, data: Seq<u32> },
    Uniform1iv { location: i32, count: i32, data: Seq<i32> },
    Uniform1uiv { location: i32, count: i32, data: Seq<u32> },
    UniformMatrix3fv { location: i32, count: i32, transpose: bool, data: Seq<u32> },
    UniformMatrix4fv { location: i32, count: i32, transpose: bool, data: Seq<u32> },
    ActiveTexture { unit: u32 },
    BindTexture2D { texture: Option<SharedTexture2D> },
}

impl View for GlCall {
    type V = GlCallView;

    open spec fn view(&self) -> GlCallView {
        match *self {
            GlCall::UseProgram { program } => GlCallView::UseProgram { program },
            GlCall::Uniform1f { location, value } => GlCallView::Uniform1f { location, value },
            GlCall::Uniform1i { location, value } => GlCallView::Uniform1i { location, value },
            GlCall::Uniform1ui { location, value } => GlCallView::Uniform1ui { location, value },
            GlCall::Uniform1fv { location, count, data } => GlCallView::Uniform1fv {
                location,
                count,
                data: data@,
            },
            GlCall::Uniform2fv { location, count, data } => GlCallView::Uniform2fv {
                location,
                count,
                data: data@,
            },
            GlCall::Uniform3fv { location, count, data } => GlCallView::Uniform3fv {
                location,
                count,
                data: data@,
            },
            GlCall::Uniform4fv { location, count, data } => GlCallView::Uniform4fv {
                location,
                count,
                data: data@,
            },
            GlCall::Uniform1iv { location, count, data } => GlCallView::Uniform1iv {
                location,
                count,
                data: data@,
            },
            GlCall::Uniform1uiv { location, count, data } => GlCallView::Uniform1uiv {
                location,
                count,
                data: data@,
            },
            GlCall::UniformMatrix3fv { location, count, transpose, data } => {
                GlCallView::UniformMatrix3fv { location, count, transpose, data: data@ }
            },
            GlCall::UniformMatrix4fv { location, count, transpose, data } => {
                GlCallView::UniformMatrix4fv { location, count, transpose, data: data@ }
            },
            GlCall::ActiveTexture { unit } => GlCallView::ActiveTexture { unit },
            GlCall::BindTexture2D { texture } => GlCallView::BindTexture2D { texture },
        }
    }
}

impl GlCallView {
    /// Whether the call binds a texture or selects a texture unit.
    pub open spec fn is_texture_call(self) -> bool {
        self is ActiveTexture || self is BindTexture2D
    }
}

/// What a list of calls says, call by call.
pub open spec fn call_views(calls: Seq<GlCall>) -> Seq<GlCallView> {
    calls.map_values(|c: GlCall| c@)
}

/// Why a uniform could not be sent.
#[derive(Debug, Clone, Copy, PartialEq, Eq, Structural)]
pub enum UniformError {
    /// An array uniform holds no element.
    EmptyArray,
    /// An array uniform holds more elements than a call can count.
    ArrayTooLong,
    /// A sampler is paired with a location that names no texture unit.
    NoTextureSlot,
}

/// The components of all `items`, one vector after the other.
pub open spec fn flat2(items: Seq<Vector2>) -> Seq<u32>
    decreases items.len(),
{
    if items.len() == 0 {
        Seq::empty()
    } else {
        flat2(items.drop_last()) + seq![items.last().x, items.last().y]
    }
}

/// The components of all `items`, one vector after the other.
pub open spec fn flat3(items: Seq<Vector3>) -> Seq<u32>
    decreases items.len(),
{
    if items.len() == 0 {
        Seq::empty()
    } else {
        flat3(items.drop_last()) + seq![items.last().x, items.last().y, items.last().z]
    }
}

/// The components of all `items`, one vector after the other.
pub open spec fn flat4(items: Seq<Vector4>) -> Seq<u32>
    decreases items.len(),
{
    if items.len() == 0 {
        Seq::empty()
    } else {
        flat4(items.drop_last()) + seq![
            items.last().x,
            items.last().y,
            items.last().z,
            items.last().w,
        ]
    }
}

/// The elements of all `items`, one matrix after the other.
pub open spec fn flat_matrix3(items: Seq<Matrix3>) -> Seq<u32>
    decreases items.len(),
{
    if items.len() == 0 {
        Seq::empty()
    } else {
        flat_matrix3(items.drop_last()) + items.last().elements@
    }
}

/// The elements of all `items`, one matrix after the other.
pub open spec fn flat_matrix4(items: Seq<Matrix4>) -> Seq<u32>
    decreases items.len(),
{
    if items.len() == 0 {
        Seq::empty()
    } else {
        flat_matrix4(items.drop_last()) + items.last().elements@
    }
}

fn flatten2(items: &Vec<Vector2>) -> (out: Vec<u32>)
    ensures
        out@ == flat2(items@),
{
    let mut out: Vec<u32> = Vec::new();
    let mut i: usize = 0;
    while i < items.len()
        invariant
            i <= items.len(),
            out@ == flat2(items@.take(i as int)),
        decreases items.len() - i,
    {
        let v = items[i];
        out.push(v.x);
        out.push(v.y);
        assert(items@.take(i + 1).drop_last() == items@.take(i as int));
        i = i + 1;
    }
    assert(items@.take(i as int) == items@);
    out
}

fn flatten3(items: &Vec<Vector3>) -> (out: Vec<u32>)
    ensures
        out@ == flat3(items@),
{
    let mut out: Vec<u32> = Vec::new();
    let mut i: usize = 0;
    while i < items.len()
        invariant
            i <= items.len(),
            out@ == flat3(items@.take(i as int)),
        decreases items.len() - i,
    {
        let v = items[i];
        out.push(v.x);
        out.push(v.y);
        out.push(v.z);
        assert(items@.take(i + 1).drop_last() == items@.take(i as int));
        i = i + 1;
    }
    assert(items@.take(i as int) == items@);
    out
}

fn flatten4(items: &Vec<Vector4>) -> (out: Vec<u32>)
    ensures
        out@ == flat4(items@),
{
    let mut out: Vec<u32> = Vec::new();
    let mut i: usize = 0;
    while i < items.len()
        invariant
            i <= items.len(),
            out@ == flat4(items@.take(i as int)),
        decreases items.len() - i,
    {
        let v = items[i];
        out.push(v.x);
        out.push(v.y);
        out.push(v.z);
        out.push(v.w);
        assert(items@.take(i + 1).drop_last() == items@.take(i as int));
        i = i + 1;
    }
    assert(items@.take(i as int) == items@);
    out
}

/// Appends the nine elements of `m` to `out`.
fn push_matrix3(out: &mut Vec<u32>, m: &Matrix3)
    ensures
        final(out)@ == old(out)@ + m.elements@,
{
    let mut k: usize = 0;
    while k < 9
        invariant
            k <= 9,
            out@ == old(out)@ + m.elements@.take(k as int),
        decreases 9 - k,
    {
        out.push(m.elements[k]);
        k = k + 1;
    }
    assert(m.elements@.take(9) == m.elements@);
}

/// Appends the sixteen elements of `m` to `out`.
fn push_matrix4(out: &mut Vec<u32>, m: &Matrix4)
    ensures
        final(out)@ == old(out)@ + m.elements@,
{
    let mut k: usize = 0;
    while k < 16
        invariant
            k <= 16,
            out@ == old(out)@ + m.elements@.take(k as int),
        decreases 16 - k,
    {
        out.push(m.elements[k]);
        k = k + 1;
    }
    assert(m.elements@.take(16) == m.elements@);
}

fn flatten_matrix3(items: &Vec<Matrix3>) -> (out: Vec<u32>)
    ensures
        out@ == flat_matrix3(items@),
{
    let mut out: Vec<u32> = Vec::new();
    let mut i: usize = 0;
    while i < items.len()
        invariant
            i <= items.len(),
            out@ == flat_matrix3(items@.take(i as int)),
        decreases items.len() - i,
    {
        push_matrix3(&mut out, &items[i]);
        assert(items@.take(i + 1).drop_last() == items@.take(i as int));
        i = i + 1;
    }
    assert(items@.take(i as int) == items@);
    out
}

fn flatten_matrix4(items: &Vec<Matrix4>) -> (out: Vec<u32>)
    ensures
        out@ == flat_matrix4(items@),
{
    let mut out: Vec<u32> = Vec::new();
    let mut i: usize = 0;
    while i < items.len()
        invariant
            i <= items.len(),
            out@ == flat_matrix4(items@.take(i as int)),
        decreases items.len() - i,
    {
        push_matrix4(&mut out, &items[i]);
        assert(items@.take(i + 1).drop_last() == items@.take(i as int));
        i = i + 1;
    }
    assert(items@.take(i as int) == items@);
    out
}

/// The one call that sends an array of `len` elements, if such an array can be
/// sent at all.
pub open spec fn array_call(len: nat, call: GlCallView) -> Result<Seq<GlCallView>, UniformError> {
    if len == 0 {
        Err(UniformError::EmptyArray)
    } else if len > i32::MAX {
        Err(UniformError::ArrayTooLong)
    } else {
        Ok(seq![call])
    }
}

/// The calls that send `uniform` to the place `loc`.
///
/// A uniform that the program does not use is passed over. A sampler selects
/// its texture unit and binds its texture there. Every other value is sent
/// through the entry point of its own shape, arrays with their element count.
pub open spec fn calls_for(uniform: Uniform, loc: UniformLocation) -> Result<
    Seq<GlCallView>,
    UniformError,
> {
    let location = loc.location;
    if location == NOT_FOUND {
        Ok(Seq::empty())
    } else {
        match uniform {
            Uniform::Vector2(v) => Ok(
                seq![GlCallView::Uniform2fv { location, count: 1, data: seq![v.x, v.y] }],
            ),
            Uniform::Vector3(v) => Ok(
                seq![GlCallView::Uniform3fv { location, count: 1, data: seq![v.x, v.y, v.z] }],
            ),
            Uniform::Vector4(v) => Ok(
                seq![GlCallView::Uniform4fv { location, count: 1, data: seq![v.x, v.y, v.z, v.w] }],
            ),
            Uniform::Matrix3f(m) => Ok(
                seq![
                    GlCallView::UniformMatrix3fv {
                        location,
                        count: 1,
                        transpose: false,
                        data: m.elements@,
                    },
                ],
            ),
            Uniform::Matrix4f(m) => Ok(
                seq![
                    GlCallView::UniformMatrix4fv {
                        location,
                        count: 1,
                        transpose: false,
                        data: m.elements@,
                    },
                ],
            ),
            Uniform::Float(value) => Ok(seq![GlCallView::Uniform1f { location, value }]),
            Uniform::Int(value) => Ok(seq![GlCallView::Uniform1i { location, value }]),
            Uniform::UInt(value) => Ok(seq![GlCallView::Uniform1ui { location, value }]),
            Uniform::ArrVector2(items) => array_call(
                items@.len(),
                GlCallView::Uniform2fv {
                    location,
                    count: items@.len() as i32,
                    data: flat2(items@),
                },
            ),
            Uniform::ArrVector3(items) => array_call(
                items@.len(),
                GlCallView::Uniform3fv {
                    location,
                    count: items@.len() as i32,
                    data: flat3(items@),
                },
            ),
            Uniform::ArrVector4(items) => array_call(
                items@.len(),
                GlCallView::Uniform4fv {
                    location,
                    count: items@.len() as i32,
                    data: flat4(items@),
                },
            ),
            Uniform::ArrMatrix3f(items) => array_call(
                items@.len(),
                GlCallView::UniformMatrix3fv {
                    location,
                    count: items@.len() as i32,
                    transpose: false,
                    data: flat_matrix3(items@),
                },
            ),
            Uniform::ArrMatrix4f(items) => array_call(
                items@.len(),
                GlCallView::UniformMatrix4fv {
                    location,
                    count: items@.len() as i32,
                    transpose: false,
                    data: flat_matrix4(items@),
                },
            ),
            Uniform::ArrFloat(items) => array_call(
                items@.len(),
                GlCallView::Uniform1fv { location, count: items@.len() as i32, data: items@ },
            ),
            Uniform::ArrInt(items) => array_call(
                items@.len(),
                GlCallView::Uniform1iv { location, count: items@.len() as i32, data: items@ },
            ),
            Uniform::ArrUInt(items) => array_call(
                items@.len(),
                GlCallView::Uniform1uiv { location, count: items@.len() as i32, data: items@ },
            ),
            Uniform::Texture2D(texture) => if loc.texture_slot < 0 {
                Err(UniformError::NoTextureSlot)
            } else {
                Ok(
                    seq![
                        GlCallView::ActiveTexture { unit: loc.texture_slot as u32 },
                        GlCallView::BindTexture2D { texture },
                    ],
                )
            },
        }
    }
}

/// The element count of an array uniform, as a call takes it.
fn array_count(len: usize) -> (r: Result<i32, UniformError>)
    ensures
        r == if len == 0 {
            Err::<i32, UniformError>(UniformError::EmptyArray)
        } else if len > i32::MAX {
            Err(UniformError::ArrayTooLong)
        } else {
            Ok(len as i32)
        },
{
    if len == 0 {
        Err(UniformError::EmptyArray)
    } else if len > 0x7fff_ffff {
        Err(UniformError::ArrayTooLong)
    } else {
        Ok(len as i32)
    }
}

fn copy_u32(items: &Vec<u32>) -> (out: Vec<u32>)
    ensures
        out@ == items@,
{
    let mut out: Vec<u32> = Vec::new();
    let mut i: usize = 0;
    while i < items.len()
        invariant
            i <= items.len(),
            out@ == items@.take(i as int),
        decreases items.len() - i,
    {
        out.push(items[i]);
        i = i + 1;
    }
    assert(items@.take(i as int) == items@);
    out
}

fn copy_i32(items: &Vec<i32>) -> (out: Vec<i32>)
    ensures
        out@ == items@,
{
    let mut out: Vec<i32> = Vec::new();
    let mut i: usize = 0;
    while i < items.len()
        invariant
            i <= items.len(),
            out@ == items@.take(i as int),
        decreases items.len() - i,
    {
        out.push(items[i]);
        i = i + 1;
    }
    assert(items@.take(i as int) == items@);
    out
}

/// A list that holds `call` and nothing else.
fn single(call: GlCall) -> (calls: Vec<GlCall>)
    ensures
        call_views(calls@) == seq![call@],
{
    let mut calls: Vec<GlCall> = Vec::new();
    calls.push(call);
    assert(call_views(calls@) =~= seq![call@]);
    calls
}

/// Works out the calls that send `uniform` to the place `loc`.
///
/// Nothing is sent for a uniform whose location is [`NOT_FOUND`]. An array
/// without elements, or with more than `i32::MAX` of them, is an error, and so
/// is a sampler whose location names no texture unit.
pub fn set_uniform(uniform: &Uniform, loc: &UniformLocation) -> (r: Result<
    Vec<GlCall>,
    UniformError,
>)
    ensures
        match calls_for(*uniform, *loc) {
            Ok(calls) => r is Ok && call_views(r->Ok_0@) == calls,
            Err(e) => r == Err::<Vec<GlCall>, UniformError>(e),
        },
{
    let location = loc.location;
    if location == NOT_FOUND {
        let calls: Vec<GlCall> = Vec::new();
        assert(call_views(calls@) =~= Seq::empty());
        return Ok(calls);
    }
    match uniform {
        Uniform::Vector2(v) => {
            let mut data: Vec<u32> = Vec::new();
            data.push(v.x);
            data.push(v.y);
            assert(data@ =~= seq![v.x, v.y]);
            Ok(single(GlCall::Uniform2fv { location, count: 1, data }))
        },
        Uniform::Vector3(v) => {
            let mut data: Vec<u32> = Vec::new();
            data.push(v.x);
            data.push(v.y);
            data.push(v.z);
            assert(data@ =~= seq![v.x, v.y, v.z]);
            Ok(single(GlCall::Uniform3fv { location, count: 1, data }))
        },
        Uniform::Vector4(v) => {
            let mut data: Vec<u32> = Vec::new();
            data.push(v.x);
            data.push(v.y);
            data.push(v.z);
            data.push(v.w);
            assert(data@ =~= seq![v.x, v.y, v.z, v.w]);
            Ok(single(GlCall::Uniform4fv { location, count: 1, data }))
        },
        Uniform::Matrix3f(m) => {
            let mut data: Vec<u32> = Vec::new();
            push_matrix3(&mut data, m);
            assert(data@ =~= m.elements@);
            Ok(single(GlCall::UniformMatrix3fv { location, count: 1, transpose: false, data }))
        },
        Uniform::Matrix4f(m) => {
            let mut data: Vec<u32> = Vec::new();
            push_matrix4(&mut data, m);
            assert(data@ =~= m.elements@);
            Ok(single(GlCall::UniformMatrix4fv { location, count: 1, transpose: false, data }))
        },
        Uniform::Float(value) => Ok(single(GlCall::Uniform1f { location, value: *value })),
        Uniform::Int(value) => Ok(single(GlCall::Uniform1i { location, value: *value })),
        Uniform::UInt(value) => Ok(single(GlCall::Uniform1ui { location, value: *value })),
        Uniform::ArrVector2(items) => {
            match array_count(items.len()) {
                Err(e) => Err(e),
                Ok(count) => Ok(single(GlCall::Uniform2fv { location, count, data: flatten2(items) })),
            }
        },
        Uniform::ArrVector3(items) => {
            match array_count(items.len()) {
                Err(e) => Err(e),
                Ok(count) => Ok(single(GlCall::Uniform3fv { location, count, data: flatten3(items) })),
            }
        },
        Uniform::ArrVector4(items) => {
            match array_count(items.len()) {
                Err(e) => Err(e),
                Ok(count) => Ok(single(GlCall::Uniform4fv { location, count, data: flatten4(items) })),
            }
        },
        Uniform::ArrMatrix3f(items) => {
            match array_count(items.len()) {
                Err(e) => Err(e),
                Ok(count) => Ok(
                    single(
                        GlCall::UniformMatrix3fv {
                            location,
                            count,
                            transpose: false,
                            data: flatten_matrix3(items),
                        },
                    ),
                ),
            }
        },
        Uniform::ArrMatrix4f(items) => {
            match array_count(items.len()) {
                Err(e) => Err(e),
                Ok(count) => Ok(
                    single(
                        GlCall::UniformMatrix4fv {
                            location,
                            count,
                            transpose: false,
                            data: flatten_matrix4(items),
                        },
                    ),
                ),
            }
        },
        Uniform::ArrFloat(items) => {
            match array_count(items.len()) {
                Err(e) => Err(e),
                Ok(count) => Ok(single(GlCall::Uniform1fv { location, count, data: copy_u32(items) })),
            }
        },
        Uniform::ArrInt(items) => {
            match array_count(items.len()) {
                Err(e) => Err(e),
                Ok(count) => Ok(single(GlCall::Uniform1iv { location, count, data: copy_i32(items) })),
            }
        },
        Uniform::ArrUInt(items) => {
            match array_count(items.len()) {
                Err(e) => Err(e),
                Ok(count) => Ok(single(GlCall::Uniform1uiv { location, count, data: copy_u32(items) })),
            }
        },
        Uniform::Texture2D(texture) => {
            if loc.texture_slot < 0 {
                Err(UniformError::NoTextureSlot)
            } else {
                let bound = match texture {
                    Some(t) => Some(t.share()),
                    None => None,
                };
                let mut calls: Vec<GlCall> = Vec::new();
                calls.push(GlCall::ActiveTexture { unit: loc.texture_slot as u32 });
                calls.push(GlCall::BindTexture2D { texture: bound });
                assert(call_views(calls@) =~= seq![
                    GlCallView::ActiveTexture { unit: loc.texture_slot as u32 },
                    GlCallView::BindTexture2D { texture: *texture },
                ]);
                Ok(calls)
            }
        },
    }
}

/// Whether a pass sends the uniform: a sampler always, any other value when it
/// has changed; nothing that the program does not use.
pub open spec fn is_sent(item: UniformItem, loc: UniformLocation) -> bool {
    loc.location != NOT_FOUND && (item.uniform.is_texture() || item.need_update)
}

/// The calls that one pass makes for one uniform.
pub open spec fn item_calls(item: UniformItem, loc: UniformLocation) -> Result<
    Seq<GlCallView>,
    UniformError,
> {
    if is_sent(item, loc) {
        calls_for(item.uniform, loc)
    } else {
        Ok(Seq::empty())
    }
}

/// The uniform after a pass that sent what it had to: a value that went out is
/// clean, a sampler and a uniform that was passed over are as before.
pub open spec fn item_after(item: UniformItem, loc: UniformLocation) -> UniformItem {
    if is_sent(item, loc) && !item.uniform.is_texture() {
        UniformItem { need_update: false, ..item }
    } else {
        item
    }
}

/// The calls that a pass makes for the first `n` uniforms, or the error of the
/// first uniform among them that cannot be sent.
pub open spec fn pass_calls(items: Seq<UniformItem>, table: Seq<UniformLocation>, n: nat) -> Result<
    Seq<GlCallView>,
    UniformError,
>
    decreases n,
{
    if n == 0 {
        Ok(Seq::empty())
    } else {
        match pass_calls(items, table, (n - 1) as nat) {
            Err(e) => Err(e),
            Ok(before) => match item_calls(items[n - 1], table[n - 1]) {
                Err(e) => Err(e),
                Ok(calls) => Ok(before + calls),
            },
        }
    }
}

/// The uniforms after a pass that succeeded.
pub open spec fn pass_items(items: Seq<UniformItem>, table: Seq<UniformLocation>) -> Seq<
    UniformItem,
> {
    Seq::new(items.len(), |i: int| item_after(items[i], table[i]))
}

/// One dispatch pass over a material's uniforms.
///
/// Each uniform is paired with the location at the same index. Samplers are
/// bound on every pass; every other value is sent only if it has changed, and is
/// clean afterwards. If any uniform cannot be sent, nothing is sent and nothing
/// changes.
pub fn set_uniforms(uniforms: &mut Vec<UniformItem>, shader_program: &GLShaderProgramID) -> (r:
    Result<Vec<GlCall>, UniformError>)
    requires
        old(uniforms)@.len() == shader_program.uniform_locations@.len(),
    ensures
        match pass_calls(
            old(uniforms)@,
            shader_program.uniform_locations@,
            old(uniforms)@.len(),
        ) {
            Ok(calls) => r is Ok && call_views(r->Ok_0@) == calls && final(uniforms)@
                == pass_items(old(uniforms)@, shader_program.uniform_locations@),
            Err(e) => r == Err::<Vec<GlCall>, UniformError>(e) && final(uniforms)@ == old(
                uniforms,
            )@,
        },
{
    let n = uniforms.len();
    let mut calls: Vec<GlCall> = Vec::new();
    let mut i: usize = 0;
    assert(call_views(calls@) =~= Seq::empty());
    while i < n
        invariant
            i <= n,
            n == uniforms@.len(),
            n == shader_program.uniform_locations@.len(),
            uniforms@ == old(uniforms)@,
            pass_calls(uniforms@, shader_program.uniform_locations@, i as nat) == Ok::<
                Seq<GlCallView>,
                UniformError,
            >(call_views(calls@)),
        decreases n - i,
    {
        let loc = shader_program.uniform_locations[i];
        let wanted = loc.location != NOT_FOUND && (uniforms[i].uniform.holds_texture()
            || uniforms[i].need_update);
        if wanted {
            match set_uniform(&uniforms[i].uniform, &loc) {
                Err(e) => {
                    proof {
                        lemma_pass_error_stays(
                            uniforms@,
                            shader_program.uniform_locations@,
                            (i + 1) as nat,
                            n as nat,
                        );
                    }
                    return Err(e);
                },
                Ok(mut more) => {
                    let ghost before = calls@;
                    let ghost added = more@;
                    calls.append(&mut more);
                    assert(call_views(calls@) =~= call_views(before) + call_views(added));
                },
            }
        } else {
            assert(call_views(calls@) + Seq::<GlCallView>::empty() =~= call_views(calls@));
        }
        i = i + 1;
    }
    let mut k: usize = 0;
    while k < n
        invariant
            k <= n,
            n == uniforms@.len(),
            n == old(uniforms)@.len(),
            n == shader_program.uniform_locations@.len(),
            forall|j: int|
                0 <= j < k ==> uniforms@[j] == item_after(
                    old(uniforms)@[j],
                    shader_program.uniform_locations@[j],
                ),
            forall|j: int| k <= j < n ==> uniforms@[j] == old(uniforms)@[j],
        decreases n - k,
    {
        let loc = shader_program.uniform_locations[k];
        if loc.location != NOT_FOUND && !uniforms[k].uniform.holds_texture()
            && uniforms[k].need_update {
            uniforms[k].need_update = false;
        }
        k = k + 1;
    }
    assert(uniforms@ =~= pass_items(old(uniforms)@, shader_program.uniform_locations@));
    Ok(calls)
}

/// Once a pass has met a uniform that cannot be sent, taking more uniforms in
/// does not change the error.
pub proof fn lemma_pass_error_stays(
    items: Seq<UniformItem>,
    table: Seq<UniformLocation>,
    n: nat,
    m: nat,
)
    requires
        n <= m,
        pass_calls(items, table, n) is Err,
    ensures
        pass_calls(items, table, m) == pass_calls(items, table, n),
    decreases m,
{
    if n < m {
        lemma_pass_error_stays(items, table, n, (m - 1) as nat);
    }
}

/// The calls of a pass that bind textures, and no others.
pub open spec fn texture_calls(calls: Seq<GlCallView>) -> Seq<GlCallView> {
    calls.filter(|c: GlCallView| c.is_texture_call())
}

/// The texture calls among one call that binds no texture: none.
proof fn lemma_texture_calls_of_value(call: GlCallView)
    requires
        !call.is_texture_call(),
    ensures
        texture_calls(seq![call]) == Seq::<GlCallView>::empty(),
{
    reveal(Seq::filter);
    let calls = seq![call];
    assert(calls.drop_last() =~= Seq::empty());
    assert(texture_calls(calls.drop_last()) =~= Seq::empty());
    assert(texture_calls(calls) =~= Seq::empty());
}

/// The texture calls among two texture calls: both.
proof fn lemma_texture_calls_of_sampler(first: GlCallView, second: GlCallView)
    requires
        first.is_texture_call(),
        second.is_texture_call(),
    ensures
        texture_calls(seq![first, second]) == seq![first, second],
{
    reveal(Seq::filter);
    let calls = seq![first, second];
    assert(calls.drop_last() =~= seq![first]);
    assert(calls.drop_last().drop_last() =~= Seq::empty());
    assert(texture_calls(calls.drop_last().drop_last()) =~= Seq::empty());
    assert(texture_calls(calls.drop_last()) =~= seq![first]);
    assert(texture_calls(calls) =~= calls);
}

/// A value that is sent goes out in one call, and that call binds no texture.
proof fn lemma_value_goes_in_one_call(uniform: Uniform, loc: UniformLocation)
    requires
        !uniform.is_texture(),
        loc.location != NOT_FOUND,
        calls_for(uniform, loc) is Ok,
    ensures
        calls_for(uniform, loc)->Ok_0.len() == 1,
        !calls_for(uniform, loc)->Ok_0[0].is_texture_call(),
        calls_for(uniform, loc)->Ok_0 == seq![calls_for(uniform, loc)->Ok_0[0]],
{
    let calls = calls_for(uniform, loc)->Ok_0;
    assert(calls.len() == 1);
    assert(calls =~= seq![calls[0]]);
}

/// A sampler that is sent goes out in two calls, and both are texture calls.
proof fn lemma_sampler_goes_in_two_calls(uniform: Uniform, loc: UniformLocation)
    requires
        uniform.is_texture(),
        loc.location != NOT_FOUND,
        calls_for(uniform, loc) is Ok,
    ensures
        calls_for(uniform, loc)->Ok_0.len() == 2,
        calls_for(uniform, loc)->Ok_0[0].is_texture_call(),
        calls_for(uniform, loc)->Ok_0[1].is_texture_call(),
        calls_for(uniform, loc)->Ok_0 == seq![
            calls_for(uniform, loc)->Ok_0[0],
            calls_for(uniform, loc)->Ok_0[1],
        ],
{
    let calls = calls_for(uniform, loc)->Ok_0;
    assert(calls.len() == 2);
    assert(calls =~= seq![calls[0], calls[1]]);
}

/// What one uniform contributes to a second pass is what it contributed to the
/// first, as far as that bound textures.
proof fn lemma_item_sent_again(item: UniformItem, loc: UniformLocation)
    requires
        item_calls(item, loc) is Ok,
    ensures
        item_calls(item_after(item, loc), loc) == Ok::<Seq<GlCallView>, UniformError>(
            texture_calls(item_calls(item, loc)->Ok_0),
        ),
        item_after(item_after(item, loc), loc) == item_after(item, loc),
{
    let calls = item_calls(item, loc)->Ok_0;
    if is_sent(item, loc) {
        if item.uniform.is_texture() {
            lemma_sampler_goes_in_two_calls(item.uniform, loc);
            lemma_texture_calls_of_sampler(calls[0], calls[1]);
        } else {
            lemma_value_goes_in_one_call(item.uniform, loc);
            lemma_texture_calls_of_value(calls[0]);
        }
    } else {
        assert(texture_calls(calls) =~= Seq::empty()) by {
            reveal(Seq::filter);
        }
    }
}

/// A second pass over uniforms that nobody has written to since the first sends
/// no value again: it makes the texture calls of the first pass, in the same
/// order, and no other call, and it leaves the uniforms as the first pass left
/// them.
pub proof fn lemma_redispatch_sends_textures_only(
    items: Seq<UniformItem>,
    table: Seq<UniformLocation>,
)
    requires
        items.len() == table.len(),
        pass_calls(items, table, items.len()) is Ok,
    ensures
        pass_calls(pass_items(items, table), table, items.len()) == Ok::<
            Seq<GlCallView>,
            UniformError,
        >(texture_calls(pass_calls(items, table, items.len())->Ok_0)),
        pass_items(pass_items(items, table), table) == pass_items(items, table),
        forall|i: int|
            0 <= i < pass_calls(pass_items(items, table), table, items.len())->Ok_0.len()
                ==> (#[trigger] pass_calls(
                pass_items(items, table),
                table,
                items.len(),
            )->Ok_0[i]).is_texture_call(),
{
    lemma_redispatch_prefix(items, table, items.len());
    assert forall|i: int| 0 <= i < items.len() implies #[trigger] pass_items(
        pass_items(items, table),
        table,
    )[i] == pass_items(items, table)[i] by {
        lemma_pass_ok_items(items, table, items.len(), i);
        lemma_item_sent_again(items[i], table[i]);
    }
    assert(pass_items(pass_items(items, table), table) =~= pass_items(items, table));
    let first = pass_calls(items, table, items.len())->Ok_0;
    assert forall|i: int| 0 <= i < texture_calls(first).len() implies (#[trigger] texture_calls(
        first,
    )[i]).is_texture_call() by {
        first.lemma_filter_pred(|c: GlCallView| c.is_texture_call(), i);
    }
}

/// A pass that succeeds on the first `n` uniforms succeeds on each of them.
proof fn lemma_pass_ok_items(items: Seq<UniformItem>, table: Seq<UniformLocation>, n: nat, i: int)
    requires
        pass_calls(items, table, n) is Ok,
        0 <= i < n,
    ensures
        item_calls(items[i], table[i]) is Ok,
    decreases n,
{
    if i < n - 1 {
        lemma_pass_ok_items(items, table, (n - 1) as nat, i);
    }
}

proof fn lemma_redispatch_prefix(items: Seq<UniformItem>, table: Seq<UniformLocation>, n: nat)
    requires
        items.len() == table.len(),
        n <= items.len(),
        pass_calls(items, table, n) is Ok,
    ensures
        pass_calls(pass_items(items, table), table, n) == Ok::<Seq<GlCallView>, UniformError>(
            texture_calls(pass_calls(items, table, n)->Ok_0),
        ),
    decreases n,
{
    if n == 0 {
        assert(texture_calls(Seq::<GlCallView>::empty()) =~= Seq::empty()) by {
            reveal(Seq::filter);
        }
    } else {
        lemma_redispatch_prefix(items, table, (n - 1) as nat);
        lemma_item_sent_again(items[n - 1], table[n - 1]);
        let before = pass_calls(items, table, (n - 1) as nat)->Ok_0;
        let last = item_calls(items[n - 1], table[n - 1])->Ok_0;
        Seq::filter_distributes_over_add(before, last, |c: GlCallView| c.is_texture_call());
    }
}

/// What the driver reports once it has compiled a stage or linked a program:
/// the object it made, whether it succeeded, and its log.
#[derive(Debug, Clone)]
pub struct DriverReport {
    pub id: u32,
    pub success: bool,
    pub info_log: String,
}

/// The opening of the message for a stage that failed to compile.
pub open spec fn compile_label(t: ProgramType) -> Seq<char> {
    match t {
        ProgramType::Fragment => "ERROR::SHADER::FRAGMENT::COMPILATION_FAILED: "@,
        ProgramType::Vertex => "ERROR::SHADER::VERTEX::COMPILATION_FAILED: "@,
        ProgramType::NoProgram => "ERROR::SHADER::?::COMPILATION_FAILED: "@,
    }
}

/// The opening of the message for a program that failed to link.
pub open spec fn link_label() -> Seq<char> {
    "ERROR::SHADER::PROGRAM::COMPILATION_FAILED: "@
}

/// A failure message: the label, the shader's name, and the driver's log on a
/// line of its own.
pub open spec fn failure_message(label: Seq<char>, name: Seq<char>, log: Seq<char>) -> Seq<char> {
    label + name + "\n"@ + log
}

pub(crate) fn build_message(label: &str, name: &str, log: &str) -> (message: String)
    ensures
        message@ == failure_message(label@, name@, log@),
{
    let mut message = String::from_str(label);
    message.append(name);
    message.append("\n");
    message.append(log);
    message
}

/// Judges the compilation of one stage of the shader named `src_path`.
///
/// A stage that compiled yields the stage object. One that did not is a
/// [`ShaderError::ShaderCompileFailed`] that names the stage and the shader and
/// carries the driver's log; the caller deletes the stage object and gives up.
pub fn compile_shader(t: ProgramType, src_path: &str, report: &DriverReport) -> (r: Result<
    u32,
    ShaderError,
>)
    ensures
        match r {
            Ok(id) => report.success && id == report.id,
            Err(e) => !report.success && e@ == (ShaderErrorView::ShaderCompileFailed {
                stage: t,
                message: failure_message(compile_label(t), src_path@, report.info_log@),
            }),
        },
{
    if report.success {
        return Ok(report.id);
    }
    let label = match t {
        ProgramType::Fragment => "ERROR::SHADER::FRAGMENT::COMPILATION_FAILED: ",
        ProgramType::Vertex => "ERROR::SHADER::VERTEX::COMPILATION_FAILED: ",
        ProgramType::NoProgram => "ERROR::SHADER::?::COMPILATION_FAILED: ",
    };
    Err(
        ShaderError::ShaderCompileFailed {
            stage: t,
            message: build_message(label, src_path, report.info_log.as_str()),
        },
    )
}

/// How many of the first `n` uniforms are samplers.
pub open spec fn textures_before(items: Seq<UniformItem>, n: nat) -> nat
    decreases n,
{
    if n == 0 {
        0
    } else {
        textures_before(items, (n - 1) as nat) + if items[n - 1].uniform.is_texture() {
            1nat
        } else {
            0nat
        }
    }
}

/// The table entry of uniform `i`: the location the driver reported for it,
/// and, for a sampler, the next free texture unit, counted from zero.
pub open spec fn location_of(items: Seq<UniformItem>, locations: Seq<i32>, i: int) -> UniformLocation {
    UniformLocation {
        location: locations[i],
        texture_slot: if items[i].uniform.is_texture() {
            textures_before(items, i as nat) as i32
        } else {
            NO_SLOT
        },
    }
}

/// The location table of a program: one entry for each uniform, in order.
pub open spec fn location_table(items: Seq<UniformItem>, locations: Seq<i32>) -> Seq<
    UniformLocation,
> {
    Seq::new(items.len(), |i: int| location_of(items, locations, i))
}

/// The calls that tell the program, once and for all, which texture unit each
/// sampler among the first `n` uniforms reads from.
pub open spec fn sampler_calls(items: Seq<UniformItem>, locations: Seq<i32>, n: nat) -> Seq<
    GlCallView,
>
    decreases n,
{
    if n == 0 {
        Seq::empty()
    } else {
        let before = sampler_calls(items, locations, (n - 1) as nat);
        if items[n - 1].uniform.is_texture() {
            before.push(
                GlCallView::Uniform1i {
                    location: locations[n - 1],
                    value: textures_before(items, (n - 1) as nat) as i32,
                },
            )
        } else {
            before
        }
    }
}

/// No more samplers than uniforms.
pub proof fn lemma_textures_before_bound(items: Seq<UniformItem>, n: nat)
    ensures
        textures_before(items, n) <= n,
    decreases n,
{
    if n > 0 {
        lemma_textures_before_bound(items, (n - 1) as nat);
    }
}

/// Builds the location table of a linked program.
///
/// `locations[i]` is what the driver answered when asked for the uniform named
/// `uniforms[i].name`; [`NOT_FOUND`] is a legal answer. Samplers are given the
/// texture units 0, 1, 2, ... in the order in which they stand; every other
/// uniform gets [`NO_SLOT`]. The calls returned store each sampler's unit in the
/// program, which has to be the one in use when they are made.
pub fn locate_uniforms(uniforms: &Vec<UniformItem>, locations: &Vec<i32>) -> (r: (
    Vec<UniformLocation>,
    Vec<GlCall>,
))
    requires
        uniforms@.len() == locations@.len(),
        uniforms@.len() <= i32::MAX,
    ensures
        r.0@ == location_table(uniforms@, locations@),
        call_views(r.1@) == sampler_calls(uniforms@, locations@, uniforms@.len()),
{
    let n = uniforms.len();
    let mut table: Vec<UniformLocation> = Vec::new();
    let mut calls: Vec<GlCall> = Vec::new();
    let mut texture_slot: i32 = 0;
    let mut i: usize = 0;
    assert(call_views(calls@) =~= Seq::empty());
    while i < n
        invariant
            i <= n,
            n == uniforms@.len(),
            n == locations@.len(),
            n <= i32::MAX,
            texture_slot == textures_before(uniforms@, i as nat),
            table@.len() == i,
            forall|j: int| 0 <= j < i ==> table@[j] == location_of(uniforms@, locations@, j),
            call_views(calls@) == sampler_calls(uniforms@, locations@, i as nat),
        decreases n - i,
    {
        proof {
            lemma_textures_before_bound(uniforms@, i as nat);
        }
        let location = locations[i];
        if uniforms[i].uniform.holds_texture() {
            let ghost before = calls@;
            let call = GlCall::Uniform1i { location, value: texture_slot };
            calls.push(call);
            assert(call_views(calls@) =~= call_views(before).push(call@));
            table.push(UniformLocation { location, texture_slot });
            texture_slot = texture_slot + 1;
        } else {
            table.push(UniformLocation { location, texture_slot: NO_SLOT });
        }
        i = i + 1;
    }
    assert(table@ =~= location_table(uniforms@, locations@));
    (table, calls)
}

/// Everything that is sent when a freshly linked program is taken into use:
/// the program is selected, the samplers learn their texture units, and every
/// uniform goes out in a first pass.
pub open spec fn first_calls(
    id: u32,
    items: Seq<UniformItem>,
    locations: Seq<i32>,
) -> Result<Seq<GlCallView>, UniformError> {
    match pass_calls(items, location_table(items, locations), items.len()) {
        Err(e) => Err(e),
        Ok(pass) => Ok(
            seq![GlCallView::UseProgram { program: id }] + sampler_calls(
                items,
                locations,
                items.len(),
            ) + pass,
        ),
    }
}

/// Finishes a program once the driver has linked its stages.
///
/// `program` holds the text of the two stages, `link` is the driver's report on
/// linking them for the shader named `src`, and `locations[i]` is the location
/// the driver gave for `uniforms[i]`.
///
/// A failed link is fatal, like a failed compilation: it is reported as
/// [`ShaderError::ShaderLinkFailed`] with the driver's log. Otherwise the
/// program comes back with its id and its location table, together with the
/// calls to make now; the uniforms that went out in them are clean. If a
/// uniform cannot be sent, that is the error, and the uniforms are untouched.
pub fn compile_shader_program(
    src: &str,
    program: GLShaderProgramID,
    link: &DriverReport,
    locations: &Vec<i32>,
    uniforms: &mut Vec<UniformItem>,
) -> (r: Result<(GLShaderProgramID, Vec<GlCall>), ShaderError>)
    requires
        old(uniforms)@.len() == locations@.len(),
        old(uniforms)@.len() <= i32::MAX,
    ensures
        !link.success ==> r is Err && r->Err_0@ == (ShaderErrorView::ShaderLinkFailed {
            message: failure_message(link_label(), src@, link.info_log@),
        }) && final(uniforms)@ == old(uniforms)@,
        link.success ==> match first_calls(link.id, old(uniforms)@, locations@) {
            Err(e) => r is Err && r->Err_0@ == ShaderErrorView::UniformRejected(e)
                && final(uniforms)@ == old(uniforms)@,
            Ok(calls) => r is Ok && call_views(r->Ok_0.1@) == calls && final(uniforms)@
                == pass_items(old(uniforms)@, location_table(old(uniforms)@, locations@))
                && r->Ok_0.0.id == link.id && r->Ok_0.0.vs_source == program.vs_source
                && r->Ok_0.0.fs_source == program.fs_source && r->Ok_0.0.uniform_locations@
                == location_table(old(uniforms)@, locations@),
        },
{
    if !link.success {
        return Err(
            ShaderError::ShaderLinkFailed {
                message: build_message(
                    "ERROR::SHADER::PROGRAM::COMPILATION_FAILED: ",
                    src,
                    link.info_log.as_str(),
                ),
            },
        );
    }
    let (table, mut samplers) = locate_uniforms(uniforms, locations);
    let linked = GLShaderProgramID {
        fs_source: program.fs_source,
        vs_source: program.vs_source,
        id: link.id,
        uniform_locations: table,
    };
    match set_uniforms(uniforms, &linked) {
        Err(e) => Err(ShaderError::UniformRejected(e)),
        Ok(mut pass) => {
            let mut calls: Vec<GlCall> = Vec::new();
            calls.push(GlCall::UseProgram { program: link.id });
            let ghost s = samplers@;
            let ghost p = pass@;
            calls.append(&mut samplers);
            calls.append(&mut pass);
            assert(call_views(calls@) =~= seq![GlCallView::UseProgram { program: link.id }]
                + call_views(s) + call_views(p));
            Ok((linked, calls))
        },
    }
}

} // verus!
