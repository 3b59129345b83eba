//! The overload suffix of an LLVM type, as LLVM names the overloads of an
//! intrinsic: `i32`, `f64`, `v2f64`, `nxv4f32`.

use vstd::prelude::*;

use crate::decimal::{decimal, decimal_string, is_digit, lemma_decimal_injective, lemma_decimal_prefix};
use crate::types::{
    is_builtin_type, FP16Type, FP32Type, FP64Type, IntegerType, LlvmType, VectorType, VectorTypeKind,
};

verus! {

/// A type that has no overload suffix, named by how it prints.
#[derive(Debug)]
pub struct MangleTypeError {
    ty: String,
}

impl View for MangleTypeError {
    type V = Seq<char>;

    /// How the type without an overload suffix prints.
    closed spec fn view(&self) -> Seq<char> {
        self.ty@
    }
}

impl MangleTypeError {
    /// The error for a type that prints as `ty`.
    pub fn new(ty: String) -> (r: Self)
        ensures
            r@ == ty@,
    {
        MangleTypeError { ty }
    }

    /// How the type without an overload suffix prints.
    pub fn ty(&self) -> (r: &str)
        ensures
            r@ == self@,
    {
        self.ty.as_str()
    }

    /// The error's message: `Unsupported mangled type: <type>`.
    pub fn message(&self) -> (r: String)
        ensures
            r@ == "Unsupported mangled type: "@ + self@,
    {
        let mut r = String::from_str("Unsupported mangled type: ");
        r.append(self.ty.as_str());
        r
    }
}

/// The prefix of a vector's suffix that tells scalable vectors apart.
pub open spec fn vector_kind_prefix(kind: VectorTypeKind) -> Seq<char> {
    match kind {
        VectorTypeKind::Scalable => seq!['n', 'x'],
        VectorTypeKind::Fixed => seq![],
    }
}

/// The overload suffix of `t` (`Ok`), or how the part of `t` that has none
/// prints (`Err`). A type of another dialect has the suffix that its own
/// implementation of the mangling interface gives.
pub open spec fn mangle_outcome(t: LlvmType) -> Result<Seq<char>, Seq<char>>
    decreases t,
{
    match t {
        LlvmType::Integer(i) => Ok(seq!['i'] + decimal(i.width as nat)),
        LlvmType::FP16(_) => Ok(seq!['f', '1', '6']),
        LlvmType::FP32(_) => Ok(seq!['f', '3', '2']),
        LlvmType::FP64(_) => Ok(seq!['f', '6', '4']),
        LlvmType::Vector(v) => match mangle_outcome(*v.elem) {
            Ok(e) => Ok(vector_kind_prefix(v.kind) + seq!['v'] + decimal(v.num_elements as nat) + e),
            Err(p) => Err(p),
        },
        LlvmType::Other(o) => match o.own_suffix {
            Some(suffix) => Ok(suffix@),
            None => Err(o.printed@),
        },
    }
}

/// The overload suffix of `t`, where it has one.
pub open spec fn mangled(t: LlvmType) -> Option<Seq<char>> {
    match mangle_outcome(t) {
        Ok(s) => Some(s),
        Err(_) => None,
    }
}

/// What a mangling call returned, as plain sequences.
pub open spec fn outcome_of(r: Result<String, MangleTypeError>) -> Result<Seq<char>, Seq<char>> {
    match r {
        Ok(s) => Ok(s@),
        Err(e) => Err(e@),
    }
}

/// A type that has an overload suffix.
pub trait LlvmTypeToMangledOverload {
    /// This type as an operand type.
    spec fn as_llvm_type(&self) -> LlvmType;

    /// The overload suffix of this type.
    fn to_mangled_string(&self) -> (r: Result<String, MangleTypeError>)
        ensures
            outcome_of(r) == mangle_outcome(self.as_llvm_type()),
    ;
}

impl LlvmTypeToMangledOverload for IntegerType {
    open spec fn as_llvm_type(&self) -> LlvmType {
        LlvmType::Integer(*self)
    }

    fn to_mangled_string(&self) -> (r: Result<String, MangleTypeError>) {
        let mut s = String::from_str("i");
        let width = decimal_string(self.width);
        s.append(width.as_str());
        proof {
            reveal_strlit("i");
        }
        assert(s@ =~= seq!['i'] + decimal(self.width as nat));
        Ok(s)
    }
}

impl LlvmTypeToMangledOverload for FP16Type {
    open spec fn as_llvm_type(&self) -> LlvmType {
        LlvmType::FP16(*self)
    }

    fn to_mangled_string(&self) -> (r: Result<String, MangleTypeError>) {
        let s = String::from_str("f16");
        proof {
            reveal_strlit("f16");
        }
        assert(s@ =~= seq!['f', '1', '6']);
        Ok(s)
    }
}

impl LlvmTypeToMangledOverload for FP32Type {
    open spec fn as_llvm_type(&self) -> LlvmType {
        LlvmType::FP32(*self)
    }

    fn to_mangled_string(&self) -> (r: Result<String, MangleTypeError>) {
        let s = String::from_str("f32");
        proof {
            reveal_strlit("f32");
        }
        assert(s@ =~= seq!['f', '3', '2']);
        Ok(s)
    }
}

impl LlvmTypeToMangledOverload for FP64Type {
    open spec fn as_llvm_type(&self) -> LlvmType {
        LlvmType::FP64(*self)
    }

    fn to_mangled_string(&self) -> (r: Result<String, MangleTypeError>) {
        let s = String::from_str("f64");
        proof {
            reveal_strlit("f64");
        }
        assert(s@ =~= seq!['f', '6', '4']);
        Ok(s)
    }
}

impl LlvmTypeToMangledOverload for VectorType {
    open spec fn as_llvm_type(&self) -> LlvmType {
        LlvmType::Vector(*self)
    }

    fn to_mangled_string(&self) -> (r: Result<String, MangleTypeError>) {
        mangle_vector(self)
    }
}

/// The overload suffix of a vector type: `[nx]v<n><element suffix>`.
fn mangle_vector(v: &VectorType) -> (r: Result<String, MangleTypeError>)
    ensures
        outcome_of(r) == mangle_outcome(LlvmType::Vector(*v)),
    decreases v,
{
    let elem = match llvm_mangled_ty(&v.elem) {
        Ok(elem) => elem,
        Err(e) => {
            return Err(e);
        },
    };
    let mut s = String::new();
    if v.is_scalable() {
        s.append("nx");
    }
    s.append("v");
    let n = decimal_string(v.num_elements);
    s.append(n.as_str());
    s.append(elem.as_str());
    proof {
        reveal_strlit("nx");
        reveal_strlit("v");
    }
    assert(s@ =~= vector_kind_prefix(v.kind) + seq!['v'] + decimal(v.num_elements as nat) + elem@);
    Ok(s)
}

/// The overload suffix of `ty`; an error naming the type (or the vector
/// element type) that has none.
pub fn llvm_mangled_ty(ty: &LlvmType) -> (r: Result<String, MangleTypeError>)
    ensures
        outcome_of(r) == mangle_outcome(*ty),
    decreases ty,
{
    match ty {
        LlvmType::Integer(i) => i.to_mangled_string(),
        LlvmType::FP16(f) => f.to_mangled_string(),
        LlvmType::FP32(f) => f.to_mangled_string(),
        LlvmType::FP64(f) => f.to_mangled_string(),
        LlvmType::Vector(v) => mangle_vector(v),
        LlvmType::Other(o) => match &o.own_suffix {
            Some(suffix) => {
                let suffix = suffix.clone();
                Ok(suffix)
            },
            None => Err(MangleTypeError::new(o.printed.clone())),
        },
    }
}

/// The overload suffix of a builtin type is never empty and starts with a
/// letter.
pub proof fn lemma_mangled_starts_with_letter(t: LlvmType)
    requires
        mangled(t) is Some,
        is_builtin_type(t),
    ensures
        mangled(t).unwrap().len() > 0,
        mangled(t).unwrap()[0] == 'i' || mangled(t).unwrap()[0] == 'f' || mangled(t).unwrap()[0]
            == 'n' || mangled(t).unwrap()[0] == 'v',
        !is_digit(mangled(t).unwrap()[0]),
{
    let s = mangled(t).unwrap();
    match t {
        LlvmType::Vector(v) => {
            let e = mangle_outcome(*v.elem)->Ok_0;
            let d = decimal(v.num_elements as nat);
            assert(s == vector_kind_prefix(v.kind) + seq!['v'] + d + e);
            match v.kind {
                VectorTypeKind::Scalable => assert(s[0] == 'n'),
                VectorTypeKind::Fixed => assert(s[0] == 'v'),
            }
        },
        _ => {},
    }
}

/// Distinct builtin types have distinct overload suffixes: the suffix names
/// the type. (A type of another dialect may choose any suffix, such as that
/// of a builtin type.)
pub proof fn lemma_mangling_injective(a: LlvmType, b: LlvmType)
    requires
        is_builtin_type(a),
        is_builtin_type(b),
        mangled(a) is Some,
        mangled(a) == mangled(b),
    ensures
        a == b,
    decreases a,
{
    let s = mangled(a).unwrap();
    lemma_mangled_starts_with_letter(a);
    lemma_mangled_starts_with_letter(b);
    match a {
        LlvmType::Integer(i) => {
            assert(s[0] == 'i');
            match b {
                LlvmType::Integer(j) => {
                    assert(s.skip(1) =~= decimal(i.width as nat));
                    assert(s.skip(1) =~= decimal(j.width as nat));
                    lemma_decimal_injective(i.width as nat, j.width as nat);
                },
                LlvmType::Vector(w) => {
                    lemma_vector_first_char(w);
                },
                _ => {},
            }
        },
        LlvmType::FP16(_) | LlvmType::FP32(_) | LlvmType::FP64(_) => {
            assert(s[0] == 'f');
            assert(s.len() == 3);
            match b {
                LlvmType::Vector(w) => {
                    lemma_vector_first_char(w);
                },
                _ => {
                    assert(s[1] == mangled(b).unwrap()[1]);
                },
            }
        },
        LlvmType::Vector(v) => {
            lemma_vector_first_char(v);
            match b {
                LlvmType::Vector(w) => {
                    lemma_vector_first_char(w);
                    let ea = mangle_outcome(*v.elem)->Ok_0;
                    let eb = mangle_outcome(*w.elem)->Ok_0;
                    lemma_mangled_starts_with_letter(*v.elem);
                    lemma_mangled_starts_with_letter(*w.elem);
                    assert(v.kind == w.kind);
                    let p = vector_kind_prefix(v.kind) + seq!['v'];
                    let da = decimal(v.num_elements as nat);
                    let db = decimal(w.num_elements as nat);
                    assert(s =~= p + (da + ea));
                    assert(s =~= p + (db + eb));
                    assert(s.skip(p.len() as int) =~= da + ea);
                    assert(s.skip(p.len() as int) =~= db + eb);
                    lemma_decimal_prefix(v.num_elements as nat, ea, w.num_elements as nat, eb);
                    lemma_mangling_injective(*v.elem, *w.elem);
                },
                _ => {},
            }
        },
        LlvmType::Other(_) => {},
    }
}

/// The suffix of a vector starts with `n` exactly when it is scalable,
/// and with `v` otherwise.
proof fn lemma_vector_first_char(v: VectorType)
    requires
        mangled(LlvmType::Vector(v)) is Some,
        is_builtin_type(*v.elem),
    ensures
        mangled(LlvmType::Vector(v)).unwrap()[0] == (if v.kind == VectorTypeKind::Scalable {
            'n'
        } else {
            'v'
        }),
{
    let s = mangled(LlvmType::Vector(v)).unwrap();
    let e = mangle_outcome(*v.elem)->Ok_0;
    assert(s == vector_kind_prefix(v.kind) + seq!['v'] + decimal(v.num_elements as nat) + e);
}

/// The shape of each overload suffix: `i` and the width for integers, `f`
/// and the bit width for fp16, fp32 and fp64, and for a vector `v`, the
/// element count and the element's suffix, behind `nx` when scalable; a type
/// of another dialect has its own suffix, where it gives one.
pub proof fn lemma_suffix_shapes(t: LlvmType)
    ensures
        t matches LlvmType::Integer(i) ==> mangled(t) == Some(seq!['i'] + decimal(i.width as nat)),
        t is FP16 ==> mangled(t) == Some(seq!['f'] + decimal(16)),
        t is FP32 ==> mangled(t) == Some(seq!['f'] + decimal(32)),
        t is FP64 ==> mangled(t) == Some(seq!['f'] + decimal(64)),
        t matches LlvmType::Vector(v) ==> (mangled(t) is Some <==> mangled(*v.elem) is Some),
        t matches LlvmType::Vector(v) ==> (mangled(*v.elem) is Some ==> mangled(t).unwrap() == (
        if v.kind == VectorTypeKind::Scalable {
            seq!['n', 'x']
        } else {
            seq![]
        }) + seq!['v'] + decimal(v.num_elements as nat) + mangled(*v.elem).unwrap()),
        t matches LlvmType::Other(o) ==> (mangled(t) is Some <==> o.own_suffix is Some),
        t matches LlvmType::Other(o) ==> (o.own_suffix matches Some(s) ==> mangled(t) == Some(s@)),
{
    reveal_with_fuel(decimal, 2);
    assert(decimal(16) =~= seq!['1', '6']);
    assert(decimal(32) =~= seq!['3', '2']);
    assert(decimal(64) =~= seq!['6', '4']);
    if let LlvmType::Vector(v) = t {
        if let Ok(e) = mangle_outcome(*v.elem) {
            match v.kind {
                VectorTypeKind::Scalable => {},
                VectorTypeKind::Fixed => {
                    assert(seq![] + seq!['v'] + decimal(v.num_elements as nat) + e =~= vector_kind_prefix(v.kind) + seq!['v'] + decimal(v.num_elements as nat) + e);
                },
            }
        }
    }
    match t {
        LlvmType::FP16(_) => assert(seq!['f', '1', '6'] =~= seq!['f'] + decimal(16)),
        LlvmType::FP32(_) => assert(seq!['f', '3', '2'] =~= seq!['f'] + decimal(32)),
        LlvmType::FP64(_) => assert(seq!['f', '6', '4'] =~= seq!['f'] + decimal(64)),
        _ => {},
    }
}

} // verus!
