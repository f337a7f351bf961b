use vstd::prelude::*;
use vstd::string::StringExecFns;
use crate::class_id::{ClassId, class_name};

verus! {

/// The type of a constructor parameter, a field or a return value, as the
/// foreign runtime's signatures spell it.
#[derive(Clone, Copy, PartialEq, Eq, Debug, Structural)]
pub enum JavaType {
    Boolean,
    Int,
    Float,
    Void,
    Object(ClassId),
}

/// The type code of one type: a letter for a primitive, `L<name>;` for an object.
pub open spec fn type_code(t: JavaType) -> Seq<char> {
    match t {
        JavaType::Boolean => seq!['Z'],
        JavaType::Int => seq!['I'],
        JavaType::Float => seq!['F'],
        JavaType::Void => seq!['V'],
        JavaType::Object(c) => object_descriptor(c),
    }
}

/// The descriptor of an object type: `L`, the class's name, `;`.
pub open spec fn object_descriptor(c: ClassId) -> Seq<char> {
    seq!['L'] + class_name(c) + seq![';']
}

/// The type codes of a parameter list, one after the other.
pub open spec fn param_codes(ps: Seq<JavaType>) -> Seq<char>
    decreases ps.len(),
{
    if ps.len() == 0 {
        Seq::empty()
    } else {
        param_codes(ps.drop_last()) + type_code(ps.last())
    }
}

/// The descriptor of a method: the parameters' codes in parentheses, then
/// the return type's code.
pub open spec fn method_descriptor(ps: Seq<JavaType>, ret: JavaType) -> Seq<char> {
    seq!['('] + param_codes(ps) + seq![')'] + type_code(ret)
}

/// The descriptor of a constructor, whose return type is always `void`.
pub open spec fn constructor_descriptor(ps: Seq<JavaType>) -> Seq<char> {
    method_descriptor(ps, JavaType::Void)
}

/// Builds `L<name>;` for a class.
pub fn object_type_descriptor(c: ClassId) -> (r: String)
    ensures
        r@ == object_descriptor(c),
{
    proof {
        reveal_strlit("L");
        reveal_strlit(";");
        assert("L"@ =~= seq!['L']);
        assert(";"@ =~= seq![';']);
    }
    let mut s = String::from_str("L");
    s.append(c.name());
    s.append(";");
    s
}

/// Appends the type code of `t` to `s`.
pub fn push_type_code(s: &mut String, t: JavaType)
    ensures
        final(s)@ == old(s)@ + type_code(t),
{
    proof {
        reveal_strlit("Z");
        reveal_strlit("I");
        reveal_strlit("F");
        reveal_strlit("V");
        assert("Z"@ =~= seq!['Z']);
        assert("I"@ =~= seq!['I']);
        assert("F"@ =~= seq!['F']);
        assert("V"@ =~= seq!['V']);
    }
    match t {
        JavaType::Boolean => s.append("Z"),
        JavaType::Int => s.append("I"),
        JavaType::Float => s.append("F"),
        JavaType::Void => s.append("V"),
        JavaType::Object(c) => {
            let d = object_type_descriptor(c);
            s.append(d.as_str());
        },
    }
}

/// Builds the descriptor of a method with parameters `ps` and return type `ret`.
pub fn build_method_descriptor(ps: &Vec<JavaType>, ret: JavaType) -> (r: String)
    ensures
        r@ == method_descriptor(ps@, ret),
{
    proof {
        reveal_strlit("(");
        reveal_strlit(")");
        assert("("@ =~= seq!['(']);
        assert(")"@ =~= seq![')']);
        assert(ps@.subrange(0, 0) =~= Seq::<JavaType>::empty());
        assert(seq!['('] + param_codes(Seq::<JavaType>::empty()) =~= seq!['(']);
    }
    let mut s = String::from_str("(");
    let mut i: usize = 0;
    while i < ps.len()
        invariant
            i <= ps@.len(),
            s@ == seq!['('] + param_codes(ps@.subrange(0, i as int)),
        decreases ps@.len() - i,
    {
        proof {
            assert(ps@.subrange(0, i + 1).drop_last() == ps@.subrange(0, i as int));
        }
        push_type_code(&mut s, ps[i]);
        i = i + 1;
    }
    proof {
        assert(ps@.subrange(0, ps@.len() as int) == ps@);
    }
    s.append(")");
    push_type_code(&mut s, ret);
    s
}

/// Builds the descriptor of a constructor with parameters `ps`.
pub fn build_constructor_descriptor(ps: &Vec<JavaType>) -> (r: String)
    ensures
        r@ == constructor_descriptor(ps@),
{
    build_method_descriptor(ps, JavaType::Void)
}

} // verus!
