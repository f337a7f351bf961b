use vstd::prelude::*;
use crate::class_id::{ClassId, class_name};
use crate::descriptor::{JavaType, constructor_descriptor, method_descriptor, param_codes, type_code};
use crate::object::{Arg, arg_type, arg_types};

verus! {

/// The descriptor handed to a constructor depends on the classes of its
/// object arguments alone: two argument lists whose arguments have the same
/// types, however each object was itself produced, ask the runtime for the
/// same constructor.
pub proof fn lemma_descriptor_ignores_origin(a: Seq<Arg>, b: Seq<Arg>)
    requires
        a.len() == b.len(),
        forall|i: int| 0 <= i < a.len() ==> arg_type(#[trigger] a[i]) == arg_type(b[i]),
    ensures
        constructor_descriptor(arg_types(a)) == constructor_descriptor(arg_types(b)),
{
    assert(arg_types(a) =~= arg_types(b));
}

/// Each wrapped class has its own name: no two classes share one, so a
/// name resolves to the class it was written for.
pub proof fn lemma_class_names_distinct(c1: ClassId, c2: ClassId)
    requires
        c1 != c2,
    ensures
        class_name(c1) != class_name(c2),
{
    reveal_strlit("java/lang/String");
    reveal_strlit("java/io/File");
    reveal_strlit("com/itextpdf/kernel/pdf/PdfReader");
    reveal_strlit("com/itextpdf/kernel/pdf/PdfWriter");
    reveal_strlit("com/itextpdf/kernel/pdf/PdfDocument");
    reveal_strlit("com/itextpdf/kernel/pdf/DocumentProperties");
    reveal_strlit("com/itextpdf/kernel/pdf/StampingProperties");
    reveal_strlit("com/itextpdf/kernel/geom/PageSize");
    reveal_strlit("com/itextpdf/layout/Document");
    let n1 = class_name(c1);
    let n2 = class_name(c2);
    if n1.len() == n2.len() {
        assert(n1[20] != n2[20] || n1[24] != n2[24] || n1[27] != n2[27]);
    }
}

/// No class name holds a `;`, the character that ends an object type code.
proof fn lemma_class_name_has_no_semicolon(c: ClassId, i: int)
    requires
        0 <= i < class_name(c).len(),
    ensures
        class_name(c)[i] != ';',
{
    match c {
        ClassId::JavaString => reveal_strlit("java/lang/String"),
        ClassId::File => reveal_strlit("java/io/File"),
        ClassId::PdfReader => reveal_strlit("com/itextpdf/kernel/pdf/PdfReader"),
        ClassId::PdfWriter => reveal_strlit("com/itextpdf/kernel/pdf/PdfWriter"),
        ClassId::PdfDocument => reveal_strlit("com/itextpdf/kernel/pdf/PdfDocument"),
        ClassId::DocumentProperties => reveal_strlit("com/itextpdf/kernel/pdf/DocumentProperties"),
        ClassId::StampingProperties => reveal_strlit("com/itextpdf/kernel/pdf/StampingProperties"),
        ClassId::PageSize => reveal_strlit("com/itextpdf/kernel/geom/PageSize"),
        ClassId::Document => reveal_strlit("com/itextpdf/layout/Document"),
    }
}

/// A parameter list's codes, read from the front: the first parameter's code,
/// then the codes of the rest.
proof fn lemma_param_codes_front(ps: Seq<JavaType>)
    requires
        ps.len() > 0,
    ensures
        param_codes(ps) == type_code(ps[0]) + param_codes(ps.drop_first()),
    decreases ps.len(),
{
    if ps.len() == 1 {
        assert(ps.drop_last() =~= Seq::<JavaType>::empty());
        assert(ps.drop_first() =~= Seq::<JavaType>::empty());
        assert(param_codes(ps) =~= type_code(ps[0]) + param_codes(ps.drop_first()));
    } else {
        lemma_param_codes_front(ps.drop_last());
        assert(ps.drop_first().drop_last() =~= ps.drop_last().drop_first());
        assert(ps.drop_first().last() == ps.last());
        assert(ps.drop_last()[0] == ps[0]);
        assert(param_codes(ps) =~= type_code(ps[0]) + param_codes(ps.drop_first()));
    }
}

/// No type code is a proper prefix of another: where two codes start the
/// same text, they are the codes of the same type.
#[verifier::spinoff_prover]
proof fn lemma_type_code_prefix_free(a: JavaType, b: JavaType, x: Seq<char>, y: Seq<char>)
    requires
        type_code(a) + x == type_code(b) + y,
    ensures
        a == b,
        x == y,
{
    let s = type_code(a) + x;
    assert(s[0] == type_code(a)[0]);
    assert(s[0] == type_code(b)[0]);
    if let JavaType::Object(c1) = a {
        if let JavaType::Object(c2) = b {
            let n1 = class_name(c1);
            let n2 = class_name(c2);
            if n1.len() < n2.len() {
                assert(s[(n1.len() + 1) as int] == ';');
                lemma_class_name_has_no_semicolon(c2, n1.len() as int);
                assert(s[(n1.len() + 1) as int] == n2[n1.len() as int]);
            } else if n2.len() < n1.len() {
                assert(s[(n2.len() + 1) as int] == ';');
                lemma_class_name_has_no_semicolon(c1, n2.len() as int);
                assert(s[(n2.len() + 1) as int] == n1[n2.len() as int]);
            } else {
                assert forall|i: int| 0 <= i < n1.len() implies n1[i] == n2[i] by {
                    assert(s[i + 1] == n1[i]);
                    assert(s[i + 1] == n2[i]);
                }
                assert(n1 =~= n2);
                if c1 != c2 {
                    lemma_class_names_distinct(c1, c2);
                }
            }
        }
    }
    assert(type_code(a) == type_code(b));
    assert(x =~= s.subrange(type_code(a).len() as int, s.len() as int));
    assert(y =~= s.subrange(type_code(b).len() as int, s.len() as int));
}

/// A method descriptor fixes the number, the order and the type of the
/// parameters and the return type: two descriptors are equal exactly where
/// the signatures are.
pub proof fn lemma_method_descriptor_injective(ps: Seq<JavaType>, r1: JavaType, qs: Seq<JavaType>, r2: JavaType)
    ensures
        method_descriptor(ps, r1) == method_descriptor(qs, r2) <==> (ps == qs && r1 == r2),
{
    if method_descriptor(ps, r1) == method_descriptor(qs, r2) {
        let d = method_descriptor(ps, r1);
        let p = param_codes(ps);
        let q = param_codes(qs);
        assert(seq!['('] + p + seq![')'] + type_code(r1) =~= seq!['('] + (p + (seq![')'] + type_code(r1))));
        assert(seq!['('] + q + seq![')'] + type_code(r2) =~= seq!['('] + (q + (seq![')'] + type_code(r2))));
        assert(p + (seq![')'] + type_code(r1)) =~= d.drop_first());
        assert(q + (seq![')'] + type_code(r2)) =~= d.drop_first());
        lemma_codes_then_return(ps, r1, qs, r2);
    }
}

/// The parameters' codes followed by `)` and a return code can be split in
/// one way only.
#[verifier::spinoff_prover]
#[verifier::rlimit(50)]
proof fn lemma_codes_then_return(ps: Seq<JavaType>, r1: JavaType, qs: Seq<JavaType>, r2: JavaType)
    requires
        param_codes(ps) + (seq![')'] + type_code(r1)) == param_codes(qs) + (seq![')'] + type_code(r2)),
    ensures
        ps == qs,
        r1 == r2,
    decreases ps.len(),
{
    let t1 = seq![')'] + type_code(r1);
    let t2 = seq![')'] + type_code(r2);
    if ps.len() == 0 {
        if qs.len() > 0 {
            lemma_param_codes_front(qs);
            assert(t1[0] == ')');
            assert((param_codes(qs) + t2)[0] == type_code(qs[0])[0]);
        }
        assert(ps =~= qs);
        assert(type_code(r1) + Seq::<char>::empty() =~= t1.drop_first());
        assert(type_code(r2) + Seq::<char>::empty() =~= t2.drop_first());
        lemma_type_code_prefix_free(r1, r2, Seq::<char>::empty(), Seq::<char>::empty());
    } else {
        lemma_param_codes_front(ps);
        if qs.len() == 0 {
            assert((param_codes(ps) + t1)[0] == type_code(ps[0])[0]);
            assert(t2[0] == ')');
        } else {
            lemma_param_codes_front(qs);
            assert(param_codes(ps) + t1 =~= type_code(ps[0]) + (param_codes(ps.drop_first()) + t1));
            assert(param_codes(qs) + t2 =~= type_code(qs[0]) + (param_codes(qs.drop_first()) + t2));
            lemma_type_code_prefix_free(ps[0], qs[0], param_codes(ps.drop_first()) + t1, param_codes(qs.drop_first()) + t2);
            lemma_codes_then_return(ps.drop_first(), r1, qs.drop_first(), r2);
            assert(ps =~= seq![ps[0]] + ps.drop_first());
            assert(qs =~= seq![qs[0]] + qs.drop_first());
        }
    }
}

/// A constructor descriptor fixes the number, the order and the type of the
/// arguments: two are equal exactly where the parameter lists are.
pub proof fn lemma_constructor_descriptor_injective(ps: Seq<JavaType>, qs: Seq<JavaType>)
    ensures
        constructor_descriptor(ps) == constructor_descriptor(qs) <==> ps == qs,
{
    lemma_method_descriptor_injective(ps, JavaType::Void, qs, JavaType::Void);
}

} // verus!
