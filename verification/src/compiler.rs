//! The result and memory discipline at the engine boundary.
//!
//! [`Compiler`] owns one engine instance and wraps every boundary command:
//! it maps status codes to typed errors, copies every variable-length
//! result into owned data-model values, and releases every buffer the
//! engine allocated — also when an error interrupts a query half-way.  A
//! type invariant keeps the handle quiescent: between operations the
//! engine reports no live buffer, so a leak is a verification error, not
//! a runtime hazard.

use vstd::prelude::*;

use crate::engine;
use crate::engine::CompilerInstance;
use crate::engine::InstanceModel;
use crate::native;
use crate::spirv;
use crate::ErrorCode;

verus! {

use vstd::slice::slice_to_vec;
use vstd::string::StrSliceExecFns;
use vstd::utf8::decode_utf8;
use vstd::utf8::encode_utf8;
use vstd::utf8::valid_utf8;

impl spirv::ImageType {
    /// The owned image descriptor of a native image record, every field
    /// copied as it stands.
    pub fn from_raw(ty: native::ImageRecord) -> (r: spirv::ImageType)
        ensures
            r.type_id == ty.type_id,
            r.dim == ty.dim,
            r.depth == ty.depth,
            r.arrayed == ty.arrayed,
            r.ms == ty.ms,
            r.sampled == ty.sampled,
            r.format == ty.format,
    {
        spirv::ImageType {
            type_id: ty.type_id,
            dim: ty.dim,
            depth: ty.depth,
            arrayed: ty.arrayed,
            ms: ty.ms,
            sampled: ty.sampled,
            format: ty.format,
        }
    }
}

/// Whether an owned image descriptor carries exactly the fields of a
/// native image record.
pub open spec fn image_represents(r: spirv::ImageType, m: native::ImageRecord) -> bool {
    &&& r.type_id == m.type_id
    &&& r.dim == m.dim
    &&& r.depth == m.depth
    &&& r.arrayed == m.arrayed
    &&& r.ms == m.ms
    &&& r.sampled == m.sampled
    &&& r.format == m.format
}

/// Whether an owned type descriptor carries exactly the content of a
/// native type record: the variant named by the record's base tag, with
/// every field the variant keeps copied from the record.
pub open spec fn type_represents(t: spirv::Type, m: native::TypeModel) -> bool {
    match m.base_type {
        native::BaseType::Unknown => t is Unknown,
        native::BaseType::Void => t is Void,
        native::BaseType::Boolean => t matches spirv::Type::Boolean {
            vecsize,
            columns,
            array,
            array_size_literal,
        } && vecsize == m.vecsize && columns == m.columns && array@ == m.array
            && array_size_literal@ == m.array_size_literal,
        native::BaseType::Char => t matches spirv::Type::Char { array, array_size_literal }
            && array@ == m.array && array_size_literal@ == m.array_size_literal,
        native::BaseType::Int => t matches spirv::Type::Int {
            vecsize,
            columns,
            array,
            array_size_literal,
        } && vecsize == m.vecsize && columns == m.columns && array@ == m.array
            && array_size_literal@ == m.array_size_literal,
        native::BaseType::UInt => t matches spirv::Type::UInt {
            vecsize,
            columns,
            array,
            array_size_literal,
        } && vecsize == m.vecsize && columns == m.columns && array@ == m.array
            && array_size_literal@ == m.array_size_literal,
        native::BaseType::Int64 => t matches spirv::Type::Int64 {
            vecsize,
            array,
            array_size_literal,
        } && vecsize == m.vecsize && array@ == m.array && array_size_literal@
            == m.array_size_literal,
        native::BaseType::UInt64 => t matches spirv::Type::UInt64 {
            vecsize,
            array,
            array_size_literal,
        } && vecsize == m.vecsize && array@ == m.array && array_size_literal@
            == m.array_size_literal,
        native::BaseType::AtomicCounter => t matches spirv::Type::AtomicCounter {
            array,
            array_size_literal,
        } && array@ == m.array && array_size_literal@ == m.array_size_literal,
        native::BaseType::Half => t matches spirv::Type::Half {
            vecsize,
            columns,
            array,
            array_size_literal,
        } && vecsize == m.vecsize && columns == m.columns && array@ == m.array
            && array_size_literal@ == m.array_size_literal,
        native::BaseType::Float => t matches spirv::Type::Float {
            vecsize,
            columns,
            array,
            array_size_literal,
        } && vecsize == m.vecsize && columns == m.columns && array@ == m.array
            && array_size_literal@ == m.array_size_literal,
        native::BaseType::Double => t matches spirv::Type::Double {
            vecsize,
            columns,
            array,
            array_size_literal,
        } && vecsize == m.vecsize && columns == m.columns && array@ == m.array
            && array_size_literal@ == m.array_size_literal,
        native::BaseType::Struct => t matches spirv::Type::Struct {
            member_types,
            array,
            array_size_literal,
        } && member_types@ == m.member_types && array@ == m.array && array_size_literal@
            == m.array_size_literal,
        native::BaseType::Image => t matches spirv::Type::Image {
            array,
            array_size_literal,
            image,
        } && array@ == m.array && array_size_literal@ == m.array_size_literal
            && image_represents(image, m.image),
        native::BaseType::SampledImage => t matches spirv::Type::SampledImage {
            array,
            array_size_literal,
            image,
        } && array@ == m.array && array_size_literal@ == m.array_size_literal
            && image_represents(image, m.image),
        native::BaseType::Sampler => t matches spirv::Type::Sampler { array, array_size_literal }
            && array@ == m.array && array_size_literal@ == m.array_size_literal,
        native::BaseType::SByte => t matches spirv::Type::SByte {
            vecsize,
            array,
            array_size_literal,
        } && vecsize == m.vecsize && array@ == m.array && array_size_literal@
            == m.array_size_literal,
        native::BaseType::UByte => t matches spirv::Type::UByte {
            vecsize,
            array,
            array_size_literal,
        } && vecsize == m.vecsize && array@ == m.array && array_size_literal@
            == m.array_size_literal,
        native::BaseType::Short => t matches spirv::Type::Short {
            vecsize,
            array,
            array_size_literal,
        } && vecsize == m.vecsize && array@ == m.array && array_size_literal@
            == m.array_size_literal,
        native::BaseType::UShort => t matches spirv::Type::UShort {
            vecsize,
            array,
            array_size_literal,
        } && vecsize == m.vecsize && array@ == m.array && array_size_literal@
            == m.array_size_literal,
        native::BaseType::ControlPointArray => t is ControlPointArray,
        native::BaseType::AccelerationStructure => t is AccelerationStructure,
        native::BaseType::RayQuery => t is RayQuery,
        native::BaseType::Interpolant => t is Interpolant,
    }
}

impl spirv::Type {
    /// The owned type descriptor of a native type record: the variant
    /// named by the base tag, keeping exactly the fields that variant
    /// carries.
    pub fn from_raw(
        ty: native::BaseType,
        vecsize: u32,
        columns: u32,
        member_types: Vec<u32>,
        array: Vec<u32>,
        array_size_literal: Vec<bool>,
        image: native::ImageRecord,
    ) -> (r: spirv::Type)
        ensures
            type_represents(
                r,
                native::TypeModel {
                    base_type: ty,
                    vecsize,
                    columns,
                    member_types: member_types@,
                    array: array@,
                    array_size_literal: array_size_literal@,
                    image,
                },
            ),
    {
        match ty {
            native::BaseType::Unknown => spirv::Type::Unknown,
            native::BaseType::Void => spirv::Type::Void,
            native::BaseType::Boolean => spirv::Type::Boolean {
                vecsize,
                columns,
                array,
                array_size_literal,
            },
            native::BaseType::Char => spirv::Type::Char { array, array_size_literal },
            native::BaseType::Int => spirv::Type::Int {
                vecsize,
                columns,
                array,
                array_size_literal,
            },
            native::BaseType::UInt => spirv::Type::UInt {
                vecsize,
                columns,
                array,
                array_size_literal,
            },
            native::BaseType::Int64 => spirv::Type::Int64 { vecsize, array, array_size_literal },
            native::BaseType::UInt64 => spirv::Type::UInt64 { vecsize, array, array_size_literal },
            native::BaseType::AtomicCounter => spirv::Type::AtomicCounter {
                array,
                array_size_literal,
            },
            native::BaseType::Half => spirv::Type::Half {
                vecsize,
                columns,
                array,
                array_size_literal,
            },
            native::BaseType::Float => spirv::Type::Float {
                vecsize,
                columns,
                array,
                array_size_literal,
            },
            native::BaseType::Double => spirv::Type::Double {
                vecsize,
                columns,
                array,
                array_size_literal,
            },
            native::BaseType::Struct => spirv::Type::Struct {
                member_types,
                array,
                array_size_literal,
            },
            native::BaseType::Image => spirv::Type::Image {
                array,
                array_size_literal,
                image: spirv::ImageType::from_raw(image),
            },
            native::BaseType::SampledImage => spirv::Type::SampledImage {
                array,
                array_size_literal,
                image: spirv::ImageType::from_raw(image),
            },
            native::BaseType::Sampler => spirv::Type::Sampler { array, array_size_literal },
            native::BaseType::SByte => spirv::Type::SByte { vecsize, array, array_size_literal },
            native::BaseType::UByte => spirv::Type::UByte { vecsize, array, array_size_literal },
            native::BaseType::Short => spirv::Type::Short { vecsize, array, array_size_literal },
            native::BaseType::UShort => spirv::Type::UShort { vecsize, array, array_size_literal },
            native::BaseType::ControlPointArray => spirv::Type::ControlPointArray,
            native::BaseType::AccelerationStructure => spirv::Type::AccelerationStructure,
            native::BaseType::RayQuery => spirv::Type::RayQuery,
            native::BaseType::Interpolant => spirv::Type::Interpolant,
        }
    }
}

/// The ghost state of a handle: the engine instance it owns, the
/// target-specific payload, and whether a compile call has succeeded.
#[verifier::ext_equal]
pub ghost struct CompilerModel<D> {
    pub instance: InstanceModel,
    pub target_data: D,
    pub has_been_compiled: bool,
}

/// A handle that exclusively owns one engine instance for the lifetime of
/// a parsed module.  It is created by parsing and never copied; the
/// instance is released exactly once, when the handle goes out of scope.
pub struct Compiler<TTargetData> {
    pub(crate) instance: CompilerInstance,
    pub(crate) target_data: TTargetData,
    pub(crate) has_been_compiled: bool,
}

impl<TTargetData> View for Compiler<TTargetData> {
    type V = CompilerModel<TTargetData>;

    /// A handle is its instance's state, its target payload, and its
    /// compiled flag.
    closed spec fn view(&self) -> CompilerModel<TTargetData> {
        CompilerModel {
            instance: self.instance@,
            target_data: self.target_data,
            has_been_compiled: self.has_been_compiled,
        }
    }
}

impl<TTargetData> Compiler<TTargetData> {
    /// Between operations the handle is quiescent: the engine reports no
    /// live out-buffer, and the seeded tables keep their shape.
    #[verifier::type_invariant]
    pub(crate) open spec fn quiescent(self) -> bool {
        &&& self.instance@.live == 0
        &&& engine::tables_wf(self.instance@)
    }

    /// Builds a handle around a fresh engine instance.
    pub(crate) fn bind(instance: CompilerInstance, target_data: TTargetData) -> (r: Compiler<
        TTargetData,
    >)
        requires
            instance@.live == 0,
            engine::tables_wf(instance@),
        ensures
            r@ == (CompilerModel {
                instance: instance@,
                target_data: target_data,
                has_been_compiled: false,
            }),
    {
        Compiler { instance, target_data, has_been_compiled: false }
    }

    /// The target-specific payload the handle carries.
    pub fn target_data(&self) -> (r: &TTargetData)
        ensures
            *r == self@.target_data,
    {
        &self.target_data
    }

    /// Replaces the target-specific payload the handle carries.
    pub fn set_target_data(&mut self, target_data: TTargetData)
        ensures
            final(self)@ == (CompilerModel { target_data: target_data, ..old(self)@ }),
    {
        proof {
            use_type_invariant(&*self);
        }
        self.target_data = target_data;
    }

    /// Whether a compile call has succeeded on this handle.
    pub fn is_compiled(&self) -> (b: bool)
        ensures
            b == self@.has_been_compiled,
    {
        self.has_been_compiled
    }

    /// How many out-buffers of the engine are outstanding.  The
    /// discipline keeps the handle quiescent between operations: however
    /// many queries preceded this call, every buffer they received has
    /// been released, so the count always reads zero.
    pub fn live_native_allocations(&self) -> (n: u128)
        ensures
            n as nat == self@.instance.live,
            n == 0,
    {
        proof {
            use_type_invariant(&*self);
        }
        self.instance.live_allocations()
    }
}

/// Maps a command's status code to a typed outcome: success passes
/// through, a compilation error carries the engine's diagnostic, and
/// everything else is unhandled.
fn check_status(status: native::Status, instance: &CompilerInstance) -> (r: Result<(), ErrorCode>)
    ensures
        match status {
            native::Status::Success => r is Ok,
            native::Status::CompilationError => r matches Err(ErrorCode::CompilationError(m))
                && m@ == instance@.latest_error,
            native::Status::Unhandled => r == Err::<(), ErrorCode>(ErrorCode::Unhandled),
        },
{
    match status {
        native::Status::Success => Ok(()),
        native::Status::CompilationError => Err(
            ErrorCode::CompilationError(instance.latest_error_message()),
        ),
        native::Status::Unhandled => Err(ErrorCode::Unhandled),
    }
}

/// Relies on `String::from_utf8`: it accepts exactly the byte sequences
/// that are valid UTF-8 and decodes them.
#[verifier::external_body]
fn decode_native_string(bytes: Vec<u8>) -> (r: Option<String>)
    ensures
        match r {
            Some(s) => valid_utf8(bytes@) && s@ == decode_utf8(bytes@),
            None => !valid_utf8(bytes@),
        },
{
    match String::from_utf8(bytes) {
        Ok(s) => Some(s),
        Err(_) => None,
    }
}

/// Whether a name cannot travel as native text: its encoding carries an
/// interior terminator byte.
pub open spec fn has_interior_nul(name: Seq<char>) -> bool {
    encode_utf8(name).contains(0u8)
}

/// The bytes under which a name travels as native text, or nothing if the
/// name cannot be encoded.
fn encode_native_string(name: &str) -> (r: Option<Vec<u8>>)
    ensures
        has_interior_nul(name@) <==> r is None,
        r matches Some(v) ==> v@ == encode_utf8(name@),
{
    let bytes = name.as_bytes_vec();
    let n = bytes.len();
    for i in 0..n
        invariant
            n == bytes@.len(),
            bytes@ == encode_utf8(name@),
            forall|j: int| 0 <= j < i ==> bytes@[j] != 0,
    {
        if bytes[i] == 0 {
            proof {
                assert(encode_utf8(name@).contains(0u8));
            }
            return None;
        }
    }
    proof {
        if encode_utf8(name@).contains(0u8) {
            let j = choose|j: int|
                0 <= j < encode_utf8(name@).len() && encode_utf8(name@)[j] == 0;
            assert(bytes@[j] != 0);
        }
    }
    Some(bytes)
}

/// The name a byte table stores for a key, or the empty name.
pub open spec fn stored_bytes(m: Map<u128, Seq<u8>>, k: u128) -> Seq<u8> {
    engine::spec_lookup_or(m, k, Seq::<u8>::empty())
}

impl<TTargetData> Compiler<TTargetData> {
    /// The argument of a decoration on an identifier; an absent
    /// decoration reads as zero, as the engine defines.
    pub fn get_decoration(&self, id: u32, decoration: native::Decoration) -> (r: Result<
        u32,
        ErrorCode,
    >)
        ensures
            r matches Ok(v) && v == engine::spec_lookup_or(
                self@.instance.decorations,
                engine::spec_decoration_key(id, decoration),
                0u32,
            ),
    {
        let (status, value) = self.instance.get_decoration(id, decoration);
        match check_status(status, &self.instance) {
            Ok(()) => Ok(value),
            Err(e) => Err(e),
        }
    }

    /// The argument of a decoration on a struct member; an absent
    /// decoration reads as zero, as the engine defines.
    pub fn get_member_decoration(&self, id: u32, index: u32, decoration: native::Decoration) -> (r:
        Result<u32, ErrorCode>)
        ensures
            r matches Ok(v) && v == engine::spec_lookup_or(
                self@.instance.member_decorations,
                engine::spec_member_decoration_key(id, index, decoration),
                0u32,
            ),
    {
        let (status, value) = self.instance.get_member_decoration(id, index, decoration);
        match check_status(status, &self.instance) {
            Ok(()) => Ok(value),
            Err(e) => Err(e),
        }
    }

    /// Sets a decoration on an identifier.
    pub fn set_decoration(&mut self, id: u32, decoration: native::Decoration, argument: u32) -> (r:
        Result<(), ErrorCode>)
        ensures
            r is Ok,
            final(self)@ == (CompilerModel {
                instance: (InstanceModel {
                    decorations: old(self)@.instance.decorations.insert(
                        engine::spec_decoration_key(id, decoration),
                        argument,
                    ),
                    ..old(self)@.instance
                }),
                ..old(self)@
            }),
    {
        proof {
            use_type_invariant(&*self);
        }
        let mut inst = CompilerInstance::empty();
        core::mem::swap(&mut inst, &mut self.instance);
        let status = inst.set_decoration(id, decoration, argument);
        let checked = check_status(status, &inst);
        self.instance = inst;
        checked
    }

    /// Removes a decoration from an identifier.
    pub fn unset_decoration(&mut self, id: u32, decoration: native::Decoration) -> (r: Result<
        (),
        ErrorCode,
    >)
        ensures
            r is Ok,
            final(self)@ == (CompilerModel {
                instance: (InstanceModel {
                    decorations: old(self)@.instance.decorations.remove(
                        engine::spec_decoration_key(id, decoration),
                    ),
                    ..old(self)@.instance
                }),
                ..old(self)@
            }),
    {
        proof {
            use_type_invariant(&*self);
        }
        let mut inst = CompilerInstance::empty();
        core::mem::swap(&mut inst, &mut self.instance);
        let status = inst.unset_decoration(id, decoration);
        let checked = check_status(status, &inst);
        self.instance = inst;
        checked
    }

    /// Sets a decoration on a struct member.
    pub fn set_member_decoration(
        &mut self,
        id: u32,
        index: u32,
        decoration: native::Decoration,
        argument: u32,
    ) -> (r: Result<(), ErrorCode>)
        ensures
            r is Ok,
            final(self)@ == (CompilerModel {
                instance: (InstanceModel {
                    member_decorations: old(self)@.instance.member_decorations.insert(
                        engine::spec_member_decoration_key(id, index, decoration),
                        argument,
                    ),
                    ..old(self)@.instance
                }),
                ..old(self)@
            }),
    {
        proof {
            use_type_invariant(&*self);
        }
        let mut inst = CompilerInstance::empty();
        core::mem::swap(&mut inst, &mut self.instance);
        let status = inst.set_member_decoration(id, index, decoration, argument);
        let checked = check_status(status, &inst);
        self.instance = inst;
        checked
    }

    /// The name of an identifier; an unset name reads as the empty
    /// string.  The native text is copied, decoded and released; a name
    /// that is not valid text is an unhandled failure.
    pub fn get_name(&mut self, id: u32) -> (r: Result<String, ErrorCode>)
        ensures
            final(self)@ == old(self)@,
            ({
                let bytes = stored_bytes(old(self)@.instance.names, engine::spec_id_key(id));
                match r {
                    Ok(s) => valid_utf8(bytes) && s@ == decode_utf8(bytes),
                    Err(e) => e == ErrorCode::Unhandled && !valid_utf8(bytes),
                }
            }),
    {
        proof {
            use_type_invariant(&*self);
        }
        let mut inst = CompilerInstance::empty();
        core::mem::swap(&mut inst, &mut self.instance);
        let (status, bytes) = inst.get_name(id);
        let checked = check_status(status, &inst);
        inst.free_buffer();
        self.instance = inst;
        match checked {
            Err(e) => Err(e),
            Ok(()) => match decode_native_string(bytes) {
                Some(s) => Ok(s),
                None => Err(ErrorCode::Unhandled),
            },
        }
    }

    /// The name of a struct member; an unset name reads as the empty
    /// string.  The native text is copied, decoded and released; a name
    /// that is not valid text is an unhandled failure.
    pub fn get_member_name(&mut self, id: u32, index: u32) -> (r: Result<String, ErrorCode>)
        ensures
            final(self)@ == old(self)@,
            ({
                let bytes = stored_bytes(
                    old(self)@.instance.member_names,
                    engine::spec_member_key(id, index),
                );
                match r {
                    Ok(s) => valid_utf8(bytes) && s@ == decode_utf8(bytes),
                    Err(e) => e == ErrorCode::Unhandled && !valid_utf8(bytes),
                }
            }),
    {
        proof {
            use_type_invariant(&*self);
        }
        let mut inst = CompilerInstance::empty();
        core::mem::swap(&mut inst, &mut self.instance);
        let (status, bytes) = inst.get_member_name(id, index);
        let checked = check_status(status, &inst);
        inst.free_buffer();
        self.instance = inst;
        match checked {
            Err(e) => Err(e),
            Ok(()) => match decode_native_string(bytes) {
                Some(s) => Ok(s),
                None => Err(ErrorCode::Unhandled),
            },
        }
    }

    /// Stores a name for an identifier; a name that cannot be encoded as
    /// native text is rejected before any command is issued.
    pub fn set_name(&mut self, id: u32, name: &str) -> (r: Result<(), ErrorCode>)
        ensures
            has_interior_nul(name@) ==> r == Err::<(), ErrorCode>(ErrorCode::Unhandled) && final(self)@ == old(self)@,
            !has_interior_nul(name@) ==> r is Ok && final(self)@ == (CompilerModel {
                instance: (InstanceModel {
                    names: old(self)@.instance.names.insert(
                        engine::spec_id_key(id),
                        encode_utf8(name@),
                    ),
                    ..old(self)@.instance
                }),
                ..old(self)@
            }),
    {
        proof {
            use_type_invariant(&*self);
        }
        let bytes = match encode_native_string(name) {
            Some(v) => v,
            None => {
                return Err(ErrorCode::Unhandled);
            },
        };
        let mut inst = CompilerInstance::empty();
        core::mem::swap(&mut inst, &mut self.instance);
        let status = inst.set_name(id, bytes);
        let checked = check_status(status, &inst);
        self.instance = inst;
        checked
    }

    /// Stores a name for a struct member; a name that cannot be encoded
    /// as native text is rejected before any command is issued.
    pub fn set_member_name(&mut self, id: u32, index: u32, name: &str) -> (r: Result<
        (),
        ErrorCode,
    >)
        ensures
            has_interior_nul(name@) ==> r == Err::<(), ErrorCode>(ErrorCode::Unhandled) && final(self)@ == old(self)@,
            !has_interior_nul(name@) ==> r is Ok && final(self)@ == (CompilerModel {
                instance: (InstanceModel {
                    member_names: old(self)@.instance.member_names.insert(
                        engine::spec_member_key(id, index),
                        encode_utf8(name@),
                    ),
                    ..old(self)@.instance
                }),
                ..old(self)@
            }),
    {
        proof {
            use_type_invariant(&*self);
        }
        let bytes = match encode_native_string(name) {
            Some(v) => v,
            None => {
                return Err(ErrorCode::Unhandled);
            },
        };
        let mut inst = CompilerInstance::empty();
        core::mem::swap(&mut inst, &mut self.instance);
        let status = inst.set_member_name(id, index, bytes);
        let checked = check_status(status, &inst);
        self.instance = inst;
        checked
    }

    /// Overrides a scalar constant with a 64-bit value, split into two
    /// 32-bit halves for the command.
    pub fn set_scalar_constant(&mut self, id: u32, value: u64) -> (r: Result<(), ErrorCode>)
        ensures
            r is Ok,
            final(self)@ == (CompilerModel {
                instance: (InstanceModel {
                    scalar_constants: old(self)@.instance.scalar_constants.insert(
                        engine::spec_id_key(id),
                        ((value / 0x1_0000_0000) as u32, (value % 0x1_0000_0000) as u32),
                    ),
                    ..old(self)@.instance
                }),
                ..old(self)@
            }),
    {
        proof {
            use_type_invariant(&*self);
        }
        let high_bits = (value / 0x1_0000_0000) as u32;
        let low_bits = (value % 0x1_0000_0000) as u32;
        let mut inst = CompilerInstance::empty();
        core::mem::swap(&mut inst, &mut self.instance);
        let status = inst.set_scalar_constant(id, high_bits, low_bits);
        let checked = check_status(status, &inst);
        self.instance = inst;
        checked
    }
}

/// Whether every resource of a list decodes, and the owned list carries
/// exactly the records' content.
pub open spec fn resource_list_matches(
    v: Seq<spirv::Resource>,
    m: Seq<native::ResourceModel>,
) -> bool {
    &&& v.len() == m.len()
    &&& forall|i: int|
        0 <= i < m.len() ==> {
            &&& valid_utf8((#[trigger] m[i]).name)
            &&& v[i].id == m[i].id
            &&& v[i].type_id == m[i].type_id
            &&& v[i].base_type_id == m[i].base_type_id
            &&& v[i].name@ == decode_utf8(m[i].name)
        }
}

/// Whether every built-in resource of a list decodes, and the owned list
/// carries exactly the records' content, the built-in translated into the
/// sentinel-free vocabulary.
pub open spec fn builtin_list_matches(
    v: Seq<spirv::BuiltInResource>,
    m: Seq<native::BuiltInResourceModel>,
) -> bool {
    &&& v.len() == m.len()
    &&& forall|i: int|
        0 <= i < m.len() ==> {
            &&& valid_utf8((#[trigger] m[i]).resource.name)
            &&& v[i].builtin == spirv::spec_built_in_from_raw(m[i].builtin)
            &&& v[i].value_type_id == m[i].value_type_id
            &&& v[i].resource.id == m[i].resource.id
            &&& v[i].resource.type_id == m[i].resource.type_id
            &&& v[i].resource.base_type_id == m[i].resource.base_type_id
            &&& v[i].resource.name@ == decode_utf8(m[i].resource.name)
        }
}

/// Whether some resource name of a list is not valid text.
pub open spec fn some_invalid_resource_name(m: Seq<native::ResourceModel>) -> bool {
    exists|i: int| 0 <= i < m.len() && !valid_utf8((#[trigger] m[i]).name)
}

/// Whether some built-in resource name of a list is not valid text.
pub open spec fn some_invalid_builtin_name(m: Seq<native::BuiltInResourceModel>) -> bool {
    exists|i: int| 0 <= i < m.len() && !valid_utf8((#[trigger] m[i]).resource.name)
}

/// Whether some resource name anywhere in the fifteen categories is not
/// valid text.
pub open spec fn some_invalid_name(m: engine::ResourcesModel) -> bool {
    ||| some_invalid_resource_name(m.uniform_buffers)
    ||| some_invalid_resource_name(m.storage_buffers)
    ||| some_invalid_resource_name(m.stage_inputs)
    ||| some_invalid_resource_name(m.stage_outputs)
    ||| some_invalid_resource_name(m.subpass_inputs)
    ||| some_invalid_resource_name(m.storage_images)
    ||| some_invalid_resource_name(m.sampled_images)
    ||| some_invalid_resource_name(m.atomic_counters)
    ||| some_invalid_resource_name(m.acceleration_structures)
    ||| some_invalid_resource_name(m.push_constant_buffers)
    ||| some_invalid_resource_name(m.shader_record_buffers)
    ||| some_invalid_resource_name(m.separate_images)
    ||| some_invalid_resource_name(m.separate_samplers)
    ||| some_invalid_builtin_name(m.builtin_inputs)
    ||| some_invalid_builtin_name(m.builtin_outputs)
}

/// Whether the owned aggregate carries exactly the engine's fifteen
/// categories.
pub open spec fn shader_resources_match(
    r: spirv::ShaderResources,
    m: engine::ResourcesModel,
) -> bool {
    &&& resource_list_matches(r.uniform_buffers@, m.uniform_buffers)
    &&& resource_list_matches(r.storage_buffers@, m.storage_buffers)
    &&& resource_list_matches(r.stage_inputs@, m.stage_inputs)
    &&& resource_list_matches(r.stage_outputs@, m.stage_outputs)
    &&& resource_list_matches(r.subpass_inputs@, m.subpass_inputs)
    &&& resource_list_matches(r.storage_images@, m.storage_images)
    &&& resource_list_matches(r.sampled_images@, m.sampled_images)
    &&& resource_list_matches(r.atomic_counters@, m.atomic_counters)
    &&& resource_list_matches(r.acceleration_structures@, m.acceleration_structures)
    &&& resource_list_matches(r.push_constant_buffers@, m.push_constant_buffers)
    &&& resource_list_matches(r.shader_record_buffers@, m.shader_record_buffers)
    &&& resource_list_matches(r.separate_images@, m.separate_images)
    &&& resource_list_matches(r.separate_samplers@, m.separate_samplers)
    &&& builtin_list_matches(r.builtin_inputs@, m.builtin_inputs)
    &&& builtin_list_matches(r.builtin_outputs@, m.builtin_outputs)
}

/// The resource records a resource slice stands for once its names are
/// encoded as native text.
pub open spec fn encoded_resource_views(rs: Seq<spirv::Resource>) -> Seq<native::ResourceModel> {
    rs.map_values(
        |r: spirv::Resource| native::ResourceModel {
            id: r.id,
            type_id: r.type_id,
            base_type_id: r.base_type_id,
            name: encode_utf8(r.name@),
        },
    )
}

/// Whether some name of a resource slice cannot travel as native text.
pub open spec fn some_name_has_nul(rs: Seq<spirv::Resource>) -> bool {
    exists|i: int| 0 <= i < rs.len() && has_interior_nul((#[trigger] rs[i]).name@)
}

/// Copies one resource list out of the engine, decoding each name and
/// releasing each name buffer and the category's array buffer, also when
/// a name fails to decode.
fn fill_resources(inst: &mut CompilerInstance, records: Vec<native::ResourceRecord>) -> (r: Result<
    Vec<spirv::Resource>,
    ErrorCode,
>)
    requires
        old(inst)@.live >= records@.len() + 1,
    ensures
        final(inst)@ == (InstanceModel {
            live: (old(inst)@.live - records@.len() - 1) as nat,
            ..old(inst)@
        }),
        match r {
            Ok(v) => resource_list_matches(v@, engine::seq_view(records@)),
            Err(e) => e == ErrorCode::Unhandled && some_invalid_resource_name(
                engine::seq_view(records@),
            ),
        },
{
    let n = records.len();
    let mut out: Vec<spirv::Resource> = Vec::new();
    let mut failed: bool = false;
    for i in 0..n
        invariant
            n == records@.len(),
            inst@ == (InstanceModel {
                live: (old(inst)@.live - i) as nat,
                ..old(inst)@
            }),
            old(inst)@.live >= records@.len() + 1,
            !failed ==> out@.len() == i && resource_list_matches(
                out@,
                engine::seq_view(records@).take(i as int),
            ),
            failed ==> some_invalid_resource_name(engine::seq_view(records@)),
    {
        let rec = &records[i];
        let bytes = slice_to_vec(rec.name.as_slice());
        inst.free_buffer();
        if !failed {
            match decode_native_string(bytes) {
                Some(name) => {
                    out.push(
                        spirv::Resource {
                            id: rec.id,
                            type_id: rec.type_id,
                            base_type_id: rec.base_type_id,
                            name,
                        },
                    );
                    proof {
                        assert(engine::seq_view(records@).take(i + 1) =~= engine::seq_view(
                            records@,
                        ).take(i as int).push(records@[i as int]@));
                    }
                },
                None => {
                    failed = true;
                    proof {
                        assert(engine::seq_view(records@)[i as int] == records@[i as int]@);
                    }
                },
            }
        }
    }
    inst.free_buffer();
    if failed {
        Err(ErrorCode::Unhandled)
    } else {
        proof {
            assert(engine::seq_view(records@).take(n as int) =~= engine::seq_view(records@));
        }
        Ok(out)
    }
}

/// Copies one built-in resource list out of the engine, decoding each
/// name and translating each built-in out of the engine's vocabulary,
/// releasing every buffer also when a name fails to decode.
fn fill_builtin_resources(
    inst: &mut CompilerInstance,
    records: Vec<native::BuiltInResourceRecord>,
) -> (r: Result<Vec<spirv::BuiltInResource>, ErrorCode>)
    requires
        old(inst)@.live >= records@.len() + 1,
        engine::builtins_wf(engine::seq_view(records@)),
    ensures
        final(inst)@ == (InstanceModel {
            live: (old(inst)@.live - records@.len() - 1) as nat,
            ..old(inst)@
        }),
        match r {
            Ok(v) => builtin_list_matches(v@, engine::seq_view(records@)),
            Err(e) => e == ErrorCode::Unhandled && some_invalid_builtin_name(
                engine::seq_view(records@),
            ),
        },
{
    let n = records.len();
    let mut out: Vec<spirv::BuiltInResource> = Vec::new();
    let mut failed: bool = false;
    for i in 0..n
        invariant
            n == records@.len(),
            engine::builtins_wf(engine::seq_view(records@)),
            inst@ == (InstanceModel {
                live: (old(inst)@.live - i) as nat,
                ..old(inst)@
            }),
            old(inst)@.live >= records@.len() + 1,
            !failed ==> out@.len() == i && builtin_list_matches(
                out@,
                engine::seq_view(records@).take(i as int),
            ),
            failed ==> some_invalid_builtin_name(engine::seq_view(records@)),
    {
        let rec = &records[i];
        let bytes = slice_to_vec(rec.resource.name.as_slice());
        inst.free_buffer();
        proof {
            assert(engine::seq_view(records@)[i as int] == records@[i as int]@);
        }
        if !failed {
            match decode_native_string(bytes) {
                Some(name) => {
                    out.push(
                        spirv::BuiltInResource {
                            builtin: spirv::BuiltIn::from_raw(rec.builtin),
                            value_type_id: rec.value_type_id,
                            resource: spirv::Resource {
                                id: rec.resource.id,
                                type_id: rec.resource.type_id,
                                base_type_id: rec.resource.base_type_id,
                                name,
                            },
                        },
                    );
                    proof {
                        assert(engine::seq_view(records@).take(i + 1) =~= engine::seq_view(
                            records@,
                        ).take(i as int).push(records@[i as int]@));
                    }
                },
                None => {
                    failed = true;
                },
            }
        }
    }
    inst.free_buffer();
    if failed {
        Err(ErrorCode::Unhandled)
    } else {
        proof {
            assert(engine::seq_view(records@).take(n as int) =~= engine::seq_view(records@));
        }
        Ok(out)
    }
}

impl<TTargetData> Compiler<TTargetData> {
    /// Every entry point of the module, each copied and decoded, every
    /// buffer released; a name that is not valid text is an unhandled
    /// failure, released like the rest.
    pub fn get_entry_points(&mut self) -> (r: Result<Vec<spirv::EntryPoint>, ErrorCode>)
        ensures
            final(self)@ == old(self)@,
            ({
                let eps = old(self)@.instance.entry_points;
                match r {
                    Ok(v) => {
                        &&& v@.len() == eps.len()
                        &&& forall|i: int|
                            0 <= i < eps.len() ==> {
                                &&& valid_utf8((#[trigger] eps[i]).name)
                                &&& v@[i].name@ == decode_utf8(eps[i].name)
                                &&& v@[i].execution_model == eps[i].execution_model
                                &&& v@[i].work_group_size == (spirv::WorkGroupSize {
                                    x: eps[i].work_group_size_x,
                                    y: eps[i].work_group_size_y,
                                    z: eps[i].work_group_size_z,
                                })
                            }
                    },
                    Err(e) => e == ErrorCode::Unhandled && exists|i: int|
                        0 <= i < eps.len() && !valid_utf8((#[trigger] eps[i]).name),
                }
            }),
    {
        proof {
            use_type_invariant(&*self);
        }
        let mut inst = CompilerInstance::empty();
        core::mem::swap(&mut inst, &mut self.instance);
        let (status, records) = inst.get_entry_points();
        let checked = check_status(status, &inst);
        let n = records.len();
        let mut out: Vec<spirv::EntryPoint> = Vec::new();
        let mut failed: bool = false;
        let ghost eps = old(self)@.instance.entry_points;
        for i in 0..n
            invariant
                n == records@.len(),
                engine::seq_view(records@) == eps,
                inst@ == (InstanceModel { live: (n + 1 - i) as nat, ..old(self)@.instance }),
                !failed ==> out@.len() == i && forall|j: int|
                    0 <= j < i ==> {
                        &&& valid_utf8((#[trigger] eps[j]).name)
                        &&& out@[j].name@ == decode_utf8(eps[j].name)
                        &&& out@[j].execution_model == eps[j].execution_model
                        &&& out@[j].work_group_size == (spirv::WorkGroupSize {
                            x: eps[j].work_group_size_x,
                            y: eps[j].work_group_size_y,
                            z: eps[j].work_group_size_z,
                        })
                    },
                failed ==> exists|j: int| 0 <= j < eps.len() && !valid_utf8(
                    (#[trigger] eps[j]).name,
                ),
        {
            let rec = &records[i];
            let bytes = slice_to_vec(rec.name.as_slice());
            inst.free_buffer();
            proof {
                assert(engine::seq_view(records@)[i as int] == records@[i as int]@);
            }
            if !failed {
                match decode_native_string(bytes) {
                    Some(name) => {
                        out.push(
                            spirv::EntryPoint {
                                name,
                                execution_model: rec.execution_model,
                                work_group_size: spirv::WorkGroupSize {
                                    x: rec.work_group_size_x,
                                    y: rec.work_group_size_y,
                                    z: rec.work_group_size_z,
                                },
                            },
                        );
                    },
                    None => {
                        failed = true;
                    },
                }
            }
        }
        inst.free_buffer();
        self.instance = inst;
        match checked {
            Err(e) => Err(e),
            Ok(()) => {
                if failed {
                    Err(ErrorCode::Unhandled)
                } else {
                    Ok(out)
                }
            },
        }
    }

    /// The buffer ranges a buffer's members statically use, copied and
    /// released; a buffer the module does not reach reads as empty.
    pub fn get_active_buffer_ranges(&mut self, id: u32) -> (r: Result<
        Vec<spirv::BufferRange>,
        ErrorCode,
    >)
        ensures
            final(self)@ == old(self)@,
            ({
                let rs = engine::spec_lookup_or(
                    old(self)@.instance.buffer_ranges,
                    engine::spec_id_key(id),
                    Seq::<native::BufferRangeRecord>::empty(),
                );
                r matches Ok(v) && v@.len() == rs.len() && forall|i: int|
                    0 <= i < rs.len() ==> v@[i] == (spirv::BufferRange {
                        index: (#[trigger] rs[i]).index,
                        offset: rs[i].offset,
                        range: rs[i].range,
                    })
            }),
    {
        proof {
            use_type_invariant(&*self);
        }
        let mut inst = CompilerInstance::empty();
        core::mem::swap(&mut inst, &mut self.instance);
        let (status, records) = inst.get_active_buffer_ranges(id);
        let checked = check_status(status, &inst);
        let n = records.len();
        let mut out: Vec<spirv::BufferRange> = Vec::new();
        for i in 0..n
            invariant
                n == records@.len(),
                out@.len() == i,
                forall|j: int|
                    0 <= j < i ==> out@[j] == (spirv::BufferRange {
                        index: (#[trigger] records@[j]).index,
                        offset: records@[j].offset,
                        range: records@[j].range,
                    }),
        {
            let rec = &records[i];
            out.push(spirv::BufferRange { index: rec.index, offset: rec.offset, range: rec.range });
        }
        inst.free_buffer();
        self.instance = inst;
        match checked {
            Err(e) => Err(e),
            Ok(()) => Ok(out),
        }
    }

    /// Every specialization constant of the module, copied and released.
    pub fn get_specialization_constants(&mut self) -> (r: Result<
        Vec<spirv::SpecializationConstant>,
        ErrorCode,
    >)
        ensures
            final(self)@ == old(self)@,
            ({
                let cs = old(self)@.instance.spec_constants;
                r matches Ok(v) && v@.len() == cs.len() && forall|i: int|
                    0 <= i < cs.len() ==> v@[i] == (spirv::SpecializationConstant {
                        id: (#[trigger] cs[i]).id,
                        constant_id: cs[i].constant_id,
                    })
            }),
    {
        proof {
            use_type_invariant(&*self);
        }
        let mut inst = CompilerInstance::empty();
        core::mem::swap(&mut inst, &mut self.instance);
        let (status, records) = inst.get_specialization_constants();
        let checked = check_status(status, &inst);
        let n = records.len();
        let mut out: Vec<spirv::SpecializationConstant> = Vec::new();
        for i in 0..n
            invariant
                n == records@.len(),
                out@.len() == i,
                forall|j: int|
                    0 <= j < i ==> out@[j] == (spirv::SpecializationConstant {
                        id: (#[trigger] records@[j]).id,
                        constant_id: records@[j].constant_id,
                    }),
        {
            let rec = &records[i];
            out.push(spirv::SpecializationConstant { id: rec.id, constant_id: rec.constant_id });
        }
        inst.free_buffer();
        self.instance = inst;
        match checked {
            Err(e) => Err(e),
            Ok(()) => Ok(out),
        }
    }

    /// The three work-group-size specialization constants, copied and
    /// released.
    pub fn get_work_group_size_specialization_constants(&mut self) -> (r: Result<
        spirv::WorkGroupSizeSpecializationConstants,
        ErrorCode,
    >)
        ensures
            final(self)@ == old(self)@,
            r matches Ok(c) && c == (spirv::WorkGroupSizeSpecializationConstants {
                x: spirv::SpecializationConstant {
                    id: old(self)@.instance.wgs_x.id,
                    constant_id: old(self)@.instance.wgs_x.constant_id,
                },
                y: spirv::SpecializationConstant {
                    id: old(self)@.instance.wgs_y.id,
                    constant_id: old(self)@.instance.wgs_y.constant_id,
                },
                z: spirv::SpecializationConstant {
                    id: old(self)@.instance.wgs_z.id,
                    constant_id: old(self)@.instance.wgs_z.constant_id,
                },
            }),
    {
        proof {
            use_type_invariant(&*self);
        }
        let mut inst = CompilerInstance::empty();
        core::mem::swap(&mut inst, &mut self.instance);
        let (status, x, y, z) = inst.get_work_group_size_specialization_constants();
        let checked = check_status(status, &inst);
        inst.free_buffer();
        self.instance = inst;
        match checked {
            Err(e) => Err(e),
            Ok(()) => Ok(
                spirv::WorkGroupSizeSpecializationConstants {
                    x: spirv::SpecializationConstant { id: x.id, constant_id: x.constant_id },
                    y: spirv::SpecializationConstant { id: y.id, constant_id: y.constant_id },
                    z: spirv::SpecializationConstant { id: z.id, constant_id: z.constant_id },
                },
            ),
        }
    }

    /// The type record of an identifier, copied into an owned descriptor,
    /// every buffer released; an identifier without a type record is
    /// rejected with the engine's diagnostic.
    pub fn get_type(&mut self, id: u32) -> (r: Result<spirv::Type, ErrorCode>)
        ensures
            ({
                let k = engine::spec_id_key(id);
                if old(self)@.instance.types.dom().contains(k) {
                    &&& final(self)@ == old(self)@
                    &&& r matches Ok(t) && type_represents(t, old(self)@.instance.types[k])
                } else {
                    &&& r matches Err(ErrorCode::CompilationError(m)) && m@
                        == "no type for the identifier"@
                    &&& final(self)@ == (CompilerModel {
                        instance: (InstanceModel {
                            latest_error: "no type for the identifier"@,
                            ..old(self)@.instance
                        }),
                        ..old(self)@
                    })
                }
            }),
    {
        proof {
            use_type_invariant(&*self);
        }
        let mut inst = CompilerInstance::empty();
        core::mem::swap(&mut inst, &mut self.instance);
        let (status, record) = inst.get_type(id);
        match record {
            Some(rec) => {
                if rec.member_types.len() > 0 {
                    inst.free_buffer();
                }
                if rec.array.len() > 0 {
                    inst.free_buffer();
                }
                inst.free_buffer();
                self.instance = inst;
                Ok(
                    spirv::Type::from_raw(
                        rec.base_type,
                        rec.vecsize,
                        rec.columns,
                        rec.member_types,
                        rec.array,
                        rec.array_size_literal,
                        rec.image,
                    ),
                )
            },
            None => {
                let checked = check_status(status, &inst);
                self.instance = inst;
                match checked {
                    Err(e) => Err(e),
                    Ok(()) => Err(ErrorCode::Unhandled),
                }
            },
        }
    }

    /// All fifteen categories of shader resources in one operation, every
    /// record copied and decoded and every buffer released; a name that
    /// is not valid text is an unhandled failure, and the remaining
    /// buffers are still released before it surfaces.
    pub fn get_shader_resources(&mut self) -> (r: Result<spirv::ShaderResources, ErrorCode>)
        ensures
            final(self)@ == old(self)@,
            match r {
                Ok(sr) => shader_resources_match(sr, old(self)@.instance.resources),
                Err(e) => e == ErrorCode::Unhandled && some_invalid_name(
                    old(self)@.instance.resources,
                ),
            },
    {
        proof {
            use_type_invariant(&*self);
        }
        let mut inst = CompilerInstance::empty();
        core::mem::swap(&mut inst, &mut self.instance);
        let (status, tables) = inst.get_shader_resources();
        let engine::ResourceTables {
            uniform_buffers,
            storage_buffers,
            stage_inputs,
            stage_outputs,
            subpass_inputs,
            storage_images,
            sampled_images,
            atomic_counters,
            acceleration_structures,
            push_constant_buffers,
            shader_record_buffers,
            separate_images,
            separate_samplers,
            builtin_inputs,
            builtin_outputs,
        } = tables;
        let r1 = fill_resources(&mut inst, uniform_buffers);
        let r2 = fill_resources(&mut inst, storage_buffers);
        let r3 = fill_resources(&mut inst, stage_inputs);
        let r4 = fill_resources(&mut inst, stage_outputs);
        let r5 = fill_resources(&mut inst, subpass_inputs);
        let r6 = fill_resources(&mut inst, storage_images);
        let r7 = fill_resources(&mut inst, sampled_images);
        let r8 = fill_resources(&mut inst, atomic_counters);
        let r9 = fill_resources(&mut inst, acceleration_structures);
        let r10 = fill_resources(&mut inst, push_constant_buffers);
        let r11 = fill_resources(&mut inst, shader_record_buffers);
        let r12 = fill_resources(&mut inst, separate_images);
        let r13 = fill_resources(&mut inst, separate_samplers);
        let r14 = fill_builtin_resources(&mut inst, builtin_inputs);
        let r15 = fill_builtin_resources(&mut inst, builtin_outputs);
        self.instance = inst;
        match (r1, r2, r3, r4, r5, r6, r7, r8, r9, r10, r11, r12, r13, r14, r15) {
            (
                Ok(uniform_buffers),
                Ok(storage_buffers),
                Ok(stage_inputs),
                Ok(stage_outputs),
                Ok(subpass_inputs),
                Ok(storage_images),
                Ok(sampled_images),
                Ok(atomic_counters),
                Ok(acceleration_structures),
                Ok(push_constant_buffers),
                Ok(shader_record_buffers),
                Ok(separate_images),
                Ok(separate_samplers),
                Ok(builtin_inputs),
                Ok(builtin_outputs),
            ) => Ok(
                spirv::ShaderResources {
                    uniform_buffers,
                    storage_buffers,
                    stage_inputs,
                    stage_outputs,
                    subpass_inputs,
                    storage_images,
                    sampled_images,
                    atomic_counters,
                    acceleration_structures,
                    push_constant_buffers,
                    shader_record_buffers,
                    separate_images,
                    separate_samplers,
                    builtin_inputs,
                    builtin_outputs,
                },
            ),
            _ => Err(ErrorCode::Unhandled),
        }
    }
}

broadcast use vstd::std_specs::hash::group_hash_axioms;

proof fn lemma_take_to_set_step(s: Seq<u32>, i: int)
    requires
        0 <= i < s.len(),
    ensures
        s.take(i + 1).to_set() == s.take(i).to_set().insert(s[i]),
{
    assert forall|x: u32| s.take(i + 1).to_set().contains(x) implies s.take(i).to_set().insert(
        s[i],
    ).contains(x) by {
        let j = choose|j: int| 0 <= j < i + 1 && #[trigger] s.take(i + 1)[j] == x;
        if j < i {
            assert(s.take(i)[j] == x);
        }
    }
    assert forall|x: u32| s.take(i).to_set().insert(s[i]).contains(x) implies s.take(
        i + 1,
    ).to_set().contains(x) by {
        if s.take(i).to_set().contains(x) {
            let j = choose|j: int| 0 <= j < i && #[trigger] s.take(i)[j] == x;
            assert(s.take(i + 1)[j] == x);
        } else {
            assert(s.take(i + 1)[i] == x);
        }
    }
    assert(s.take(i + 1).to_set() =~= s.take(i).to_set().insert(s[i]));
}

impl<TTargetData> Compiler<TTargetData> {
    /// The set of identifiers of interface variables the module actually
    /// uses: duplicates collapse and order is lost, and the engine's
    /// buffer is released.
    pub fn get_active_interface_variables(&mut self) -> (r: Result<
        std::collections::HashSet<u32>,
        ErrorCode,
    >)
        ensures
            final(self)@ == old(self)@,
            r matches Ok(s) && s@ == old(self)@.instance.active_variables.to_set(),
    {
        proof {
            use_type_invariant(&*self);
        }
        let mut inst = CompilerInstance::empty();
        core::mem::swap(&mut inst, &mut self.instance);
        let (status, ids) = inst.get_active_interface_variables();
        let checked = check_status(status, &inst);
        inst.free_buffer();
        self.instance = inst;
        let mut out: std::collections::HashSet<u32> = std::collections::HashSet::new();
        let n = ids.len();
        proof {
            assert(ids@.take(0).to_set() =~= Set::<u32>::empty());
        }
        for i in 0..n
            invariant
                n == ids@.len(),
                out@ == ids@.take(i as int).to_set(),
        {
            out.insert(ids[i]);
            proof {
                lemma_take_to_set_step(ids@, i as int);
            }
        }
        proof {
            assert(ids@.take(n as int) =~= ids@);
        }
        match checked {
            Err(e) => Err(e),
            Ok(()) => Ok(out),
        }
    }

    /// The name under which the backend emits an entry point; valid only
    /// for an entry point the module has, and the engine's buffer is
    /// copied and released.  A name that cannot be encoded as native text
    /// is rejected before any command is issued.
    pub fn get_cleansed_entry_point_name(
        &mut self,
        entry_point_name: &str,
        execution_model: native::ExecutionModel,
    ) -> (r: Result<String, ErrorCode>)
        ensures
            has_interior_nul(entry_point_name@) ==> r == Err::<String, ErrorCode>(
                ErrorCode::Unhandled,
            ) && final(self)@ == old(self)@,
            !has_interior_nul(entry_point_name@) && engine::spec_has_entry_point(
                old(self)@.instance.entry_points,
                encode_utf8(entry_point_name@),
                execution_model,
            ) ==> final(self)@ == old(self)@ && (r matches Ok(s) && s@ == entry_point_name@),
            !has_interior_nul(entry_point_name@) && !engine::spec_has_entry_point(
                old(self)@.instance.entry_points,
                encode_utf8(entry_point_name@),
                execution_model,
            ) ==> (r matches Err(ErrorCode::CompilationError(m)) && m@
                == "entry point not found"@) && final(self)@ == (CompilerModel {
                instance: (InstanceModel {
                    latest_error: "entry point not found"@,
                    ..old(self)@.instance
                }),
                ..old(self)@
            }),
    {
        proof {
            use_type_invariant(&*self);
        }
        let encoded = match encode_native_string(entry_point_name) {
            Some(v) => v,
            None => {
                return Err(ErrorCode::Unhandled);
            },
        };
        let mut inst = CompilerInstance::empty();
        core::mem::swap(&mut inst, &mut self.instance);
        let (status, bytes) = inst.get_cleansed_entry_point_name(
            encoded.as_slice(),
            execution_model,
        );
        match status {
            native::Status::Success => {
                inst.free_buffer();
                self.instance = inst;
                proof {
                    vstd::utf8::encode_utf8_valid_utf8(entry_point_name@);
                    vstd::utf8::encode_utf8_decode_utf8(entry_point_name@);
                }
                match decode_native_string(bytes) {
                    Some(s) => Ok(s),
                    None => Err(ErrorCode::Unhandled),
                }
            },
            _ => {
                let checked = check_status(status, &inst);
                self.instance = inst;
                match checked {
                    Err(e) => Err(e),
                    Ok(()) => Err(ErrorCode::Unhandled),
                }
            },
        }
    }

    /// Renames every resource of the slice whose location decoration
    /// matches the given location.  Every resource name and the new name
    /// are encoded as native text first; if any one cannot be encoded the
    /// whole call is rejected before any command is issued.
    pub fn rename_interface_variable(
        &mut self,
        resources: &[spirv::Resource],
        location: u32,
        new_name: &str,
    ) -> (r: Result<(), ErrorCode>)
        ensures
            some_name_has_nul(resources@) || has_interior_nul(new_name@) ==> r == Err::<
                (),
                ErrorCode,
            >(ErrorCode::Unhandled) && final(self)@ == old(self)@,
            !(some_name_has_nul(resources@) || has_interior_nul(new_name@)) ==> r is Ok && final(self)@ == (CompilerModel {
                instance: (InstanceModel {
                    names: engine::spec_apply_rename(
                        old(self)@.instance.names,
                        old(self)@.instance.decorations,
                        encoded_resource_views(resources@),
                        location,
                        encode_utf8(new_name@),
                    ),
                    ..old(self)@.instance
                }),
                ..old(self)@
            }),
    {
        proof {
            use_type_invariant(&*self);
        }
        let n = resources.len();
        let mut records: Vec<native::ResourceRecord> = Vec::new();
        for i in 0..n
            invariant
                n == resources@.len(),
                records@.len() == i,
                forall|j: int| 0 <= j < i ==> !has_interior_nul((#[trigger] resources@[j]).name@),
                forall|j: int|
                    0 <= j < i ==> (#[trigger] records@[j])@ == encoded_resource_views(
                        resources@,
                    )[j],
        {
            let res = &resources[i];
            let bytes = match encode_native_string(res.name.as_str()) {
                Some(v) => v,
                None => {
                    return Err(ErrorCode::Unhandled);
                },
            };
            records.push(
                native::ResourceRecord {
                    id: res.id,
                    type_id: res.type_id,
                    base_type_id: res.base_type_id,
                    name: bytes,
                },
            );
            proof {
                assert(encoded_resource_views(resources@)[i as int].name == encode_utf8(
                    resources@[i as int].name@,
                ));
            }
        }
        let encoded_new = match encode_native_string(new_name) {
            Some(v) => v,
            None => {
                return Err(ErrorCode::Unhandled);
            },
        };
        let mut inst = CompilerInstance::empty();
        core::mem::swap(&mut inst, &mut self.instance);
        let status = inst.rename_interface_variable(&records, location, encoded_new.as_slice());
        let checked = check_status(status, &inst);
        self.instance = inst;
        proof {
            assert(engine::seq_view(records@) =~= encoded_resource_views(resources@));
        }
        checked
    }

    /// Selects the entry point later commands and compilation apply to; a
    /// name that cannot be encoded as native text is rejected before any
    /// command is issued, and an entry point the module does not have is
    /// rejected with the engine's diagnostic.
    pub(crate) fn set_entry_point(
        &mut self,
        name: &str,
        execution_model: native::ExecutionModel,
    ) -> (r: Result<(), ErrorCode>)
        ensures
            has_interior_nul(name@) ==> r == Err::<(), ErrorCode>(ErrorCode::Unhandled) && final(self)@ == old(self)@,
            !has_interior_nul(name@) && engine::spec_has_entry_point(
                old(self)@.instance.entry_points,
                encode_utf8(name@),
                execution_model,
            ) ==> r is Ok && final(self)@ == (CompilerModel {
                instance: (InstanceModel {
                    selected_entry_point: Some((encode_utf8(name@), execution_model)),
                    ..old(self)@.instance
                }),
                ..old(self)@
            }),
            !has_interior_nul(name@) && !engine::spec_has_entry_point(
                old(self)@.instance.entry_points,
                encode_utf8(name@),
                execution_model,
            ) ==> (r matches Err(ErrorCode::CompilationError(m)) && m@
                == "entry point not found"@) && final(self)@ == (CompilerModel {
                instance: (InstanceModel {
                    latest_error: "entry point not found"@,
                    ..old(self)@.instance
                }),
                ..old(self)@
            }),
    {
        proof {
            use_type_invariant(&*self);
        }
        let encoded = match encode_native_string(name) {
            Some(v) => v,
            None => {
                return Err(ErrorCode::Unhandled);
            },
        };
        let mut inst = CompilerInstance::empty();
        core::mem::swap(&mut inst, &mut self.instance);
        let status = inst.set_entry_point(encoded, execution_model);
        let checked = check_status(status, &inst);
        self.instance = inst;
        checked
    }

    /// Hands the flattened backend configuration record to the engine.
    pub(crate) fn set_msl_options(&mut self, options: native::MslOptionsRecord) -> (r: Result<
        (),
        ErrorCode,
    >)
        ensures
            r is Ok,
            final(self)@ == (CompilerModel {
                instance: (InstanceModel { msl_options: options, ..old(self)@.instance }),
                ..old(self)@
            }),
    {
        proof {
            use_type_invariant(&*self);
        }
        let mut inst = CompilerInstance::empty();
        core::mem::swap(&mut inst, &mut self.instance);
        let status = inst.msl_set_options(options);
        let checked = check_status(status, &inst);
        self.instance = inst;
        checked
    }

    /// Compiles under the stored configuration and the three flattened
    /// override arrays; the emitted source is copied and the engine's
    /// buffer released, and only a successful compile marks the handle
    /// compiled.
    pub(crate) fn compile_msl(
        &mut self,
        interface_variables: &Vec<native::ShaderInterfaceVariableRecord>,
        resource_bindings: &Vec<native::ResourceBindingRecord>,
        const_samplers: &Vec<native::ConstSamplerMappingRecord>,
    ) -> (r: Result<String, ErrorCode>)
        ensures
            ({
                let out = old(self)@.instance.output_source;
                let received = InstanceModel {
                    received_interface_variables: interface_variables@,
                    received_resource_bindings: resource_bindings@,
                    received_const_samplers: const_samplers@,
                    ..old(self)@.instance
                };
                match r {
                    Ok(s) => valid_utf8(out) && s@ == decode_utf8(out) && final(self)@
                        == (CompilerModel {
                        instance: received,
                        has_been_compiled: true,
                        ..old(self)@
                    }),
                    Err(e) => e == ErrorCode::Unhandled && !valid_utf8(out) && final(self)@
                        == (CompilerModel { instance: received, ..old(self)@ }),
                }
            }),
    {
        proof {
            use_type_invariant(&*self);
        }
        let mut inst = CompilerInstance::empty();
        core::mem::swap(&mut inst, &mut self.instance);
        let (status, bytes) = inst.msl_compile(
            interface_variables,
            resource_bindings,
            const_samplers,
        );
        let checked = check_status(status, &inst);
        inst.free_buffer();
        self.instance = inst;
        match checked {
            Err(e) => Err(e),
            Ok(()) => match decode_native_string(bytes) {
                Some(s) => {
                    proof {
                        use_type_invariant(&*self);
                    }
                    self.has_been_compiled = true;
                    Ok(s)
                },
                None => Err(ErrorCode::Unhandled),
            },
        }
    }

    /// Whether the stored backend configuration disables rasterization.
    pub(crate) fn msl_rasterization_disabled(&self) -> (r: Result<bool, ErrorCode>)
        ensures
            r matches Ok(v) && v == self@.instance.msl_options.disable_rasterization,
    {
        let (status, disabled) = self.instance.msl_get_is_rasterization_disabled();
        match check_status(status, &self.instance) {
            Ok(()) => Ok(disabled),
            Err(e) => Err(e),
        }
    }

    /// The automatically assigned resource binding of an identifier; one
    /// the backend did not assign reads as the all-ones index.
    pub(crate) fn automatic_msl_resource_binding(&self, id: u32) -> (r: Result<u32, ErrorCode>)
        ensures
            r matches Ok(v) && v == engine::spec_lookup_or(
                self@.instance.automatic_bindings,
                engine::spec_id_key(id),
                0xFFFF_FFFFu32,
            ),
    {
        let (status, binding) = self.instance.get_automatic_resource_binding(id);
        match check_status(status, &self.instance) {
            Ok(()) => Ok(binding),
            Err(e) => Err(e),
        }
    }

    /// The declared byte size of a buffer block; an identifier without
    /// one is rejected with the engine's diagnostic.
    pub fn get_declared_struct_size(&mut self, id: u32) -> (r: Result<u32, ErrorCode>)
        ensures
            ({
                let k = engine::spec_id_key(id);
                if old(self)@.instance.struct_sizes.dom().contains(k) {
                    final(self)@ == old(self)@ && (r matches Ok(v) && v
                        == old(self)@.instance.struct_sizes[k])
                } else {
                    (r matches Err(ErrorCode::CompilationError(m)) && m@
                        == "no declared struct size for the identifier"@) && final(self)@
                        == (CompilerModel {
                        instance: (InstanceModel {
                            latest_error: "no declared struct size for the identifier"@,
                            ..old(self)@.instance
                        }),
                        ..old(self)@
                    })
                }
            }),
    {
        proof {
            use_type_invariant(&*self);
        }
        let mut inst = CompilerInstance::empty();
        core::mem::swap(&mut inst, &mut self.instance);
        let (status, size) = inst.get_declared_struct_size(id);
        let checked = check_status(status, &inst);
        self.instance = inst;
        match checked {
            Err(e) => Err(e),
            Ok(()) => Ok(size),
        }
    }

    /// The declared byte size of one member of a buffer block; a member
    /// without one is rejected with the engine's diagnostic.
    pub fn get_declared_struct_member_size(&mut self, id: u32, index: u32) -> (r: Result<
        u32,
        ErrorCode,
    >)
        ensures
            ({
                let k = engine::spec_member_key(id, index);
                if old(self)@.instance.member_sizes.dom().contains(k) {
                    final(self)@ == old(self)@ && (r matches Ok(v) && v
                        == old(self)@.instance.member_sizes[k])
                } else {
                    (r matches Err(ErrorCode::CompilationError(m)) && m@
                        == "no declared struct size for the member"@) && final(self)@
                        == (CompilerModel {
                        instance: (InstanceModel {
                            latest_error: "no declared struct size for the member"@,
                            ..old(self)@.instance
                        }),
                        ..old(self)@
                    })
                }
            }),
    {
        proof {
            use_type_invariant(&*self);
        }
        let mut inst = CompilerInstance::empty();
        core::mem::swap(&mut inst, &mut self.instance);
        let (status, size) = inst.get_declared_struct_member_size(id, index);
        let checked = check_status(status, &inst);
        self.instance = inst;
        match checked {
            Err(e) => Err(e),
            Ok(()) => Ok(size),
        }
    }

    /// The flattened override arrays the engine received with the last
    /// compile command, for an instrumented harness to inspect.
    pub fn received_overrides(&self) -> (r: (
        Vec<native::ShaderInterfaceVariableRecord>,
        Vec<native::ResourceBindingRecord>,
        Vec<native::ConstSamplerMappingRecord>,
    ))
        ensures
            r.0@ == self@.instance.received_interface_variables,
            r.1@ == self@.instance.received_resource_bindings,
            r.2@ == self@.instance.received_const_samplers,
    {
        self.instance.received_overrides()
    }
}

} // verus!
