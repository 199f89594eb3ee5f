//! The typed data model: one tunable's current value together with its
//! immutable metadata (numeric bounds and step, declaring module, source
//! file and line).
//!
//! Floating-point kinds are carried as their decimal text: the caller that
//! sits at the process boundary converts between the machine float and its
//! shortest round-trip decimal form, so the registry itself never touches a
//! float and every stored component is a plain value.

use vstd::prelude::*;
use vstd::string::StringExecFns;

use crate::text::{decimal_of, render_u64};

verus! {

/// The fixed set of supported value kinds.
#[derive(Clone, Copy, Debug, PartialEq, Eq, Structural)]
pub enum Kind {
    F32,
    F64,
    I8,
    U8,
    I16,
    U16,
    I32,
    U32,
    I64,
    U64,
    Usize,
    Bool,
    Str,
}

/// A bare typed value, as submitted by an update request or returned by a
/// lookup. Float kinds hold the decimal text of the value.
#[derive(Clone, Debug)]
pub enum FieldValue {
    F32(String),
    F64(String),
    I8(i8),
    U8(u8),
    I16(i16),
    U16(u16),
    I32(i32),
    U32(u32),
    I64(i64),
    U64(u64),
    Usize(usize),
    Bool(bool),
    Str(String),
}

impl FieldValue {
    /// The kind this value belongs to.
    pub open spec fn kind(self) -> Kind {
        match self {
            FieldValue::F32(..) => Kind::F32,
            FieldValue::F64(..) => Kind::F64,
            FieldValue::I8(..) => Kind::I8,
            FieldValue::U8(..) => Kind::U8,
            FieldValue::I16(..) => Kind::I16,
            FieldValue::U16(..) => Kind::U16,
            FieldValue::I32(..) => Kind::I32,
            FieldValue::U32(..) => Kind::U32,
            FieldValue::I64(..) => Kind::I64,
            FieldValue::U64(..) => Kind::U64,
            FieldValue::Usize(..) => Kind::Usize,
            FieldValue::Bool(..) => Kind::Bool,
            FieldValue::Str(..) => Kind::Str,
        }
    }

    /// Computes the kind tag of this value.
    pub fn kind_of(&self) -> (k: Kind)
        ensures
            k == self.kind(),
    {
        match self {
            FieldValue::F32(..) => Kind::F32,
            FieldValue::F64(..) => Kind::F64,
            FieldValue::I8(..) => Kind::I8,
            FieldValue::U8(..) => Kind::U8,
            FieldValue::I16(..) => Kind::I16,
            FieldValue::U16(..) => Kind::U16,
            FieldValue::I32(..) => Kind::I32,
            FieldValue::U32(..) => Kind::U32,
            FieldValue::I64(..) => Kind::I64,
            FieldValue::U64(..) => Kind::U64,
            FieldValue::Usize(..) => Kind::Usize,
            FieldValue::Bool(..) => Kind::Bool,
            FieldValue::Str(..) => Kind::Str,
        }
    }
}

/// One tunable's registry entry: the current value plus immutable metadata.
///
/// Numeric variants carry `value`, `min`, `max` and `step` of the same kind;
/// boolean and text variants carry only `value`. Every variant carries the
/// declaring module path, the source file and the line number. The float
/// variants hold each number as its decimal text (see the module comment).
#[derive(Debug)]
pub enum Field {
    F32 { value: String, min: String, max: String, step: String, module: String, file: String, line: u32 },
    F64 { value: String, min: String, max: String, step: String, module: String, file: String, line: u32 },
    I8 { value: i8, min: i8, max: i8, step: i8, module: String, file: String, line: u32 },
    U8 { value: u8, min: u8, max: u8, step: u8, module: String, file: String, line: u32 },
    I16 { value: i16, min: i16, max: i16, step: i16, module: String, file: String, line: u32 },
    U16 { value: u16, min: u16, max: u16, step: u16, module: String, file: String, line: u32 },
    I32 { value: i32, min: i32, max: i32, step: i32, module: String, file: String, line: u32 },
    U32 { value: u32, min: u32, max: u32, step: u32, module: String, file: String, line: u32 },
    I64 { value: i64, min: i64, max: i64, step: i64, module: String, file: String, line: u32 },
    U64 { value: u64, min: u64, max: u64, step: u64, module: String, file: String, line: u32 },
    Usize { value: usize, min: usize, max: usize, step: usize, module: String, file: String, line: u32 },
    Bool { value: bool, module: String, file: String, line: u32 },
    Str { value: String, module: String, file: String, line: u32 },
}

impl Field {
    /// The kind this field was declared with.
    pub open spec fn kind(self) -> Kind {
        match self {
            Field::F32 { .. } => Kind::F32,
            Field::F64 { .. } => Kind::F64,
            Field::I8 { .. } => Kind::I8,
            Field::U8 { .. } => Kind::U8,
            Field::I16 { .. } => Kind::I16,
            Field::U16 { .. } => Kind::U16,
            Field::I32 { .. } => Kind::I32,
            Field::U32 { .. } => Kind::U32,
            Field::I64 { .. } => Kind::I64,
            Field::U64 { .. } => Kind::U64,
            Field::Usize { .. } => Kind::Usize,
            Field::Bool { .. } => Kind::Bool,
            Field::Str { .. } => Kind::Str,
        }
    }

    /// The current value, detached from the metadata.
    pub open spec fn value(self) -> FieldValue {
        match self {
            Field::F32 { value, .. } => FieldValue::F32(value),
            Field::F64 { value, .. } => FieldValue::F64(value),
            Field::I8 { value, .. } => FieldValue::I8(value),
            Field::U8 { value, .. } => FieldValue::U8(value),
            Field::I16 { value, .. } => FieldValue::I16(value),
            Field::U16 { value, .. } => FieldValue::U16(value),
            Field::I32 { value, .. } => FieldValue::I32(value),
            Field::U32 { value, .. } => FieldValue::U32(value),
            Field::I64 { value, .. } => FieldValue::I64(value),
            Field::U64 { value, .. } => FieldValue::U64(value),
            Field::Usize { value, .. } => FieldValue::Usize(value),
            Field::Bool { value, .. } => FieldValue::Bool(value),
            Field::Str { value, .. } => FieldValue::Str(value),
        }
    }

    /// This field with its value component replaced and every metadata
    /// component kept. Meaningful only when `v` has this field's kind.
    pub open spec fn with_value(self, v: FieldValue) -> Field {
        match (self, v) {
            (Field::F32 { min, max, step, module, file, line, .. }, FieldValue::F32(value)) =>
                Field::F32 { value, min, max, step, module, file, line },
            (Field::F64 { min, max, step, module, file, line, .. }, FieldValue::F64(value)) =>
                Field::F64 { value, min, max, step, module, file, line },
            (Field::I8 { min, max, step, module, file, line, .. }, FieldValue::I8(value)) =>
                Field::I8 { value, min, max, step, module, file, line },
            (Field::U8 { min, max, step, module, file, line, .. }, FieldValue::U8(value)) =>
                Field::U8 { value, min, max, step, module, file, line },
            (Field::I16 { min, max, step, module, file, line, .. }, FieldValue::I16(value)) =>
                Field::I16 { value, min, max, step, module, file, line },
            (Field::U16 { min, max, step, module, file, line, .. }, FieldValue::U16(value)) =>
                Field::U16 { value, min, max, step, module, file, line },
            (Field::I32 { min, max, step, module, file, line, .. }, FieldValue::I32(value)) =>
                Field::I32 { value, min, max, step, module, file, line },
            (Field::U32 { min, max, step, module, file, line, .. }, FieldValue::U32(value)) =>
                Field::U32 { value, min, max, step, module, file, line },
            (Field::I64 { min, max, step, module, file, line, .. }, FieldValue::I64(value)) =>
                Field::I64 { value, min, max, step, module, file, line },
            (Field::U64 { min, max, step, module, file, line, .. }, FieldValue::U64(value)) =>
                Field::U64 { value, min, max, step, module, file, line },
            (Field::Usize { min, max, step, module, file, line, .. }, FieldValue::Usize(value)) =>
                Field::Usize { value, min, max, step, module, file, line },
            (Field::Bool { module, file, line, .. }, FieldValue::Bool(value)) =>
                Field::Bool { value, module, file, line },
            (Field::Str { module, file, line, .. }, FieldValue::Str(value)) =>
                Field::Str { value, module, file, line },
            (f, _) => f,
        }
    }

    /// The declaring module path, as a sequence of characters.
    pub open spec fn module_view(self) -> Seq<char> {
        match self {
            Field::F32 { module, .. } => module@,
            Field::F64 { module, .. } => module@,
            Field::I8 { module, .. } => module@,
            Field::U8 { module, .. } => module@,
            Field::I16 { module, .. } => module@,
            Field::U16 { module, .. } => module@,
            Field::I32 { module, .. } => module@,
            Field::U32 { module, .. } => module@,
            Field::I64 { module, .. } => module@,
            Field::U64 { module, .. } => module@,
            Field::Usize { module, .. } => module@,
            Field::Bool { module, .. } => module@,
            Field::Str { module, .. } => module@,
        }
    }

    /// The source file name, as a sequence of characters.
    pub open spec fn file_view(self) -> Seq<char> {
        match self {
            Field::F32 { file, .. } => file@,
            Field::F64 { file, .. } => file@,
            Field::I8 { file, .. } => file@,
            Field::U8 { file, .. } => file@,
            Field::I16 { file, .. } => file@,
            Field::U16 { file, .. } => file@,
            Field::I32 { file, .. } => file@,
            Field::U32 { file, .. } => file@,
            Field::I64 { file, .. } => file@,
            Field::U64 { file, .. } => file@,
            Field::Usize { file, .. } => file@,
            Field::Bool { file, .. } => file@,
            Field::Str { file, .. } => file@,
        }
    }

    /// The declaring line number.
    pub open spec fn line_view(self) -> u32 {
        match self {
            Field::F32 { line, .. } => line,
            Field::F64 { line, .. } => line,
            Field::I8 { line, .. } => line,
            Field::U8 { line, .. } => line,
            Field::I16 { line, .. } => line,
            Field::U16 { line, .. } => line,
            Field::I32 { line, .. } => line,
            Field::U32 { line, .. } => line,
            Field::I64 { line, .. } => line,
            Field::U64 { line, .. } => line,
            Field::Usize { line, .. } => line,
            Field::Bool { line, .. } => line,
            Field::Str { line, .. } => line,
        }
    }

    /// The declaring source location as displayed: the file, a colon, the
    /// line number.
    pub open spec fn file_label(self) -> Seq<char> {
        self.file_view() + (":")@ + decimal_of(self.line_view() as int)
    }

    /// The file with line number.
    pub fn file(&self) -> (r: String)
        ensures
            r@ == self.file_label(),
    {
        let mut r = self.file_name().to_owned();
        r.append(":");
        r.append(render_u64(self.line_number() as u64).as_str());
        r
    }

    /// Computes the kind tag of this field.
    pub fn kind_of(&self) -> (k: Kind)
        ensures
            k == self.kind(),
    {
        match self {
            Field::F32 { .. } => Kind::F32,
            Field::F64 { .. } => Kind::F64,
            Field::I8 { .. } => Kind::I8,
            Field::U8 { .. } => Kind::U8,
            Field::I16 { .. } => Kind::I16,
            Field::U16 { .. } => Kind::U16,
            Field::I32 { .. } => Kind::I32,
            Field::U32 { .. } => Kind::U32,
            Field::I64 { .. } => Kind::I64,
            Field::U64 { .. } => Kind::U64,
            Field::Usize { .. } => Kind::Usize,
            Field::Bool { .. } => Kind::Bool,
            Field::Str { .. } => Kind::Str,
        }
    }

    /// The source file where the tunable was declared.
    pub fn file_name(&self) -> (r: &str)
        ensures
            r@ == self.file_view(),
    {
        match self {
            Field::F32 { file, .. } => file.as_str(),
            Field::F64 { file, .. } => file.as_str(),
            Field::I8 { file, .. } => file.as_str(),
            Field::U8 { file, .. } => file.as_str(),
            Field::I16 { file, .. } => file.as_str(),
            Field::U16 { file, .. } => file.as_str(),
            Field::I32 { file, .. } => file.as_str(),
            Field::U32 { file, .. } => file.as_str(),
            Field::I64 { file, .. } => file.as_str(),
            Field::U64 { file, .. } => file.as_str(),
            Field::Usize { file, .. } => file.as_str(),
            Field::Bool { file, .. } => file.as_str(),
            Field::Str { file, .. } => file.as_str(),
        }
    }

    /// The full module path where the tunable was declared.
    pub fn module_name(&self) -> (r: &str)
        ensures
            r@ == self.module_view(),
    {
        match self {
            Field::F32 { module, .. } => module.as_str(),
            Field::F64 { module, .. } => module.as_str(),
            Field::I8 { module, .. } => module.as_str(),
            Field::U8 { module, .. } => module.as_str(),
            Field::I16 { module, .. } => module.as_str(),
            Field::U16 { module, .. } => module.as_str(),
            Field::I32 { module, .. } => module.as_str(),
            Field::U32 { module, .. } => module.as_str(),
            Field::I64 { module, .. } => module.as_str(),
            Field::U64 { module, .. } => module.as_str(),
            Field::Usize { module, .. } => module.as_str(),
            Field::Bool { module, .. } => module.as_str(),
            Field::Str { module, .. } => module.as_str(),
        }
    }

    /// Just the line number in the file.
    pub fn line_number(&self) -> (r: u32)
        ensures
            r == self.line_view(),
    {
        match self {
            Field::F32 { line, .. } => *line,
            Field::F64 { line, .. } => *line,
            Field::I8 { line, .. } => *line,
            Field::U8 { line, .. } => *line,
            Field::I16 { line, .. } => *line,
            Field::U16 { line, .. } => *line,
            Field::I32 { line, .. } => *line,
            Field::U32 { line, .. } => *line,
            Field::I64 { line, .. } => *line,
            Field::U64 { line, .. } => *line,
            Field::Usize { line, .. } => *line,
            Field::Bool { line, .. } => *line,
            Field::Str { line, .. } => *line,
        }
    }

    /// A copy of the current value, detached from the metadata.
    pub fn current_value(&self) -> (r: FieldValue)
        ensures
            r == self.value(),
    {
        match self {
            Field::F32 { value, .. } => FieldValue::F32(value.clone()),
            Field::F64 { value, .. } => FieldValue::F64(value.clone()),
            Field::I8 { value, .. } => FieldValue::I8(*value),
            Field::U8 { value, .. } => FieldValue::U8(*value),
            Field::I16 { value, .. } => FieldValue::I16(*value),
            Field::U16 { value, .. } => FieldValue::U16(*value),
            Field::I32 { value, .. } => FieldValue::I32(*value),
            Field::U32 { value, .. } => FieldValue::U32(*value),
            Field::I64 { value, .. } => FieldValue::I64(*value),
            Field::U64 { value, .. } => FieldValue::U64(*value),
            Field::Usize { value, .. } => FieldValue::Usize(*value),
            Field::Bool { value, .. } => FieldValue::Bool(*value),
            Field::Str { value, .. } => FieldValue::Str(value.clone()),
        }
    }

    /// Replaces the value component iff `v` has this field's kind; the
    /// metadata is never touched. Returns whether the kinds matched.
    pub fn set_value(&mut self, v: FieldValue) -> (matched: bool)
        ensures
            matched == (old(self).kind() == v.kind()),
            matched ==> *final(self) == old(self).with_value(v),
            !matched ==> *final(self) == *old(self),
    {
        let matched: bool = match (&*self, &v) {
            (Field::F32 { .. }, FieldValue::F32(..)) => true,
            (Field::F64 { .. }, FieldValue::F64(..)) => true,
            (Field::I8 { .. }, FieldValue::I8(..)) => true,
            (Field::U8 { .. }, FieldValue::U8(..)) => true,
            (Field::I16 { .. }, FieldValue::I16(..)) => true,
            (Field::U16 { .. }, FieldValue::U16(..)) => true,
            (Field::I32 { .. }, FieldValue::I32(..)) => true,
            (Field::U32 { .. }, FieldValue::U32(..)) => true,
            (Field::I64 { .. }, FieldValue::I64(..)) => true,
            (Field::U64 { .. }, FieldValue::U64(..)) => true,
            (Field::Usize { .. }, FieldValue::Usize(..)) => true,
            (Field::Bool { .. }, FieldValue::Bool(..)) => true,
            (Field::Str { .. }, FieldValue::Str(..)) => true,
            _ => false,
        };
        if matched {
            match (&mut *self, v) {
                (Field::F32 { value, .. }, FieldValue::F32(n)) => { *value = n; }
                (Field::F64 { value, .. }, FieldValue::F64(n)) => { *value = n; }
                (Field::I8 { value, .. }, FieldValue::I8(n)) => { *value = n; }
                (Field::U8 { value, .. }, FieldValue::U8(n)) => { *value = n; }
                (Field::I16 { value, .. }, FieldValue::I16(n)) => { *value = n; }
                (Field::U16 { value, .. }, FieldValue::U16(n)) => { *value = n; }
                (Field::I32 { value, .. }, FieldValue::I32(n)) => { *value = n; }
                (Field::U32 { value, .. }, FieldValue::U32(n)) => { *value = n; }
                (Field::I64 { value, .. }, FieldValue::I64(n)) => { *value = n; }
                (Field::U64 { value, .. }, FieldValue::U64(n)) => { *value = n; }
                (Field::Usize { value, .. }, FieldValue::Usize(n)) => { *value = n; }
                (Field::Bool { value, .. }, FieldValue::Bool(n)) => { *value = n; }
                (Field::Str { value, .. }, FieldValue::Str(n)) => { *value = n; }
                _ => {}
            }
            true
        } else {
            false
        }
    }
}

impl Clone for Field {
    /// An exact copy: the clone equals the original, value and metadata both.
    fn clone(&self) -> (r: Self)
        ensures
            r == *self,
    {
        match self {
            Field::F32 { value, min, max, step, module, file, line } => Field::F32 {
                value: value.clone(),
                min: min.clone(),
                max: max.clone(),
                step: step.clone(),
                module: module.clone(),
                file: file.clone(),
                line: *line,
            },
            Field::F64 { value, min, max, step, module, file, line } => Field::F64 {
                value: value.clone(),
                min: min.clone(),
                max: max.clone(),
                step: step.clone(),
                module: module.clone(),
                file: file.clone(),
                line: *line,
            },
            Field::I8 { value, min, max, step, module, file, line } => Field::I8 {
                value: *value,
                min: *min,
                max: *max,
                step: *step,
                module: module.clone(),
                file: file.clone(),
                line: *line,
            },
            Field::U8 { value, min, max, step, module, file, line } => Field::U8 {
                value: *value,
                min: *min,
                max: *max,
                step: *step,
                module: module.clone(),
                file: file.clone(),
                line: *line,
            },
            Field::I16 { value, min, max, step, module, file, line } => Field::I16 {
                value: *value,
                min: *min,
                max: *max,
                step: *step,
                module: module.clone(),
                file: file.clone(),
                line: *line,
            },
            Field::U16 { value, min, max, step, module, file, line } => Field::U16 {
                value: *value,
                min: *min,
                max: *max,
                step: *step,
                module: module.clone(),
                file: file.clone(),
                line: *line,
            },
            Field::I32 { value, min, max, step, module, file, line } => Field::I32 {
                value: *value,
                min: *min,
                max: *max,
                step: *step,
                module: module.clone(),
                file: file.clone(),
                line: *line,
            },
            Field::U32 { value, min, max, step, module, file, line } => Field::U32 {
                value: *value,
                min: *min,
                max: *max,
                step: *step,
                module: module.clone(),
                file: file.clone(),
                line: *line,
            },
            Field::I64 { value, min, max, step, module, file, line } => Field::I64 {
                value: *value,
                min: *min,
                max: *max,
                step: *step,
                module: module.clone(),
                file: file.clone(),
                line: *line,
            },
            Field::U64 { value, min, max, step, module, file, line } => Field::U64 {
                value: *value,
                min: *min,
                max: *max,
                step: *step,
                module: module.clone(),
                file: file.clone(),
                line: *line,
            },
            Field::Usize { value, min, max, step, module, file, line } => Field::Usize {
                value: *value,
                min: *min,
                max: *max,
                step: *step,
                module: module.clone(),
                file: file.clone(),
                line: *line,
            },
            Field::Bool { value, module, file, line } => Field::Bool {
                value: *value,
                module: module.clone(),
                file: file.clone(),
                line: *line,
            },
            Field::Str { value, module, file, line } => Field::Str {
                value: value.clone(),
                module: module.clone(),
                file: file.clone(),
                line: *line,
            },
        }
    }
}

} // verus!
