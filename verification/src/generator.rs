//! The field-annotation generator.
//!
//! A record definition — a struct, or an enum whose variants each carry their
//! own field group — is transformed once, at build time: every field whose
//! declared type denotes the tri-state value type gains two serialization
//! directives, "omit the key when the field is missing" and "fall back to the
//! type's default when the input omits the key", unless the field already
//! carries a directive of that kind. All other fields pass through untouched.
//!
//! The transformation works on a model of the definition's surface syntax:
//! what it reads from a field is the segment list of its declared type path
//! and the namespace/key pairs of its existing annotations, and what it adds
//! is two more such annotations. Whether a field group is named, positional or
//! empty makes no difference to the pass, so a group is simply the ordered
//! list of its fields. Everything else about the definition (its name, its
//! generics, the field names) is left to the caller, who owns the full syntax
//! tree and splices the transformed annotation lists back into it.

use crate::errors::{collect_errors, gathered_notes, lemma_gathered_notes_push, lemma_gathered_notes_push_ok, result_wf, Error};
use vstd::prelude::*;

verus! {

/// The name of the tri-state value type, as a field's declared type spells it.
pub open spec fn value_type_name() -> Seq<char> {
    "Field"@
}

/// The namespace that qualifies the value type in its two-segment spelling.
pub open spec fn value_type_namespace() -> Seq<char> {
    "optional_field"@
}

/// The namespace of the directives the generator reads and writes.
pub open spec fn serialization_namespace() -> Seq<char> {
    "serde"@
}

/// The key of the "omit the key when the field is missing" directive.
pub open spec fn omit_when_missing_key() -> Seq<char> {
    "skip_serializing_if"@
}

/// The argument of a synthesized omit directive: the fully qualified name of
/// the value type's absence predicate.
pub open spec fn omit_when_missing_argument() -> Seq<char> {
    "optional_field::Field::is_missing"@
}

/// The key of the "use the type's default on missing input" directive.
pub open spec fn use_default_key() -> Seq<char> {
    "default"@
}

/// The message of the one error the transformation can report.
pub open spec fn unsupported_item_message() -> Seq<char> {
    "The attribute can only be applied to struct or enum definitions."@
}

/// A type path as a field declares it: an ordered segment list, with or
/// without a leading root-anchor marker.
pub struct TypePath {
    pub leading_colon: bool,
    pub segments: Vec<String>,
}

/// A field's declared type: a plain path, or any other type expression, which
/// the generator never matches.
pub enum TypeExpr {
    Path(TypePath),
    Other,
}

/// A namespaced key/value or key/flag annotation attached to a field.
pub struct Directive {
    pub namespace: String,
    pub key: String,
    pub argument: Option<String>,
}

/// One field of the definition under transformation: its declared type, its
/// ordered annotation list, and an opaque source-location tag the caller
/// assigned for error attribution.
pub struct FieldDef {
    pub ty: TypeExpr,
    pub attrs: Vec<Directive>,
    pub site: usize,
}

/// The ordered fields belonging to a struct or to one enum variant.
pub struct FieldGroup {
    pub fields: Vec<FieldDef>,
}

/// The definition the generator was applied to: a struct's field group, an
/// enum's field group per variant, or anything else, which is rejected.
pub enum ItemDef {
    Struct(FieldGroup),
    Enum(Vec<FieldGroup>),
    Unsupported { site: usize },
}

/// The path denotes the value type: the bare name as a single segment without
/// a root anchor, or the namespace-qualified two-segment form, anchored or
/// not.
pub open spec fn spec_path_is_value_type(p: TypePath) -> bool {
    ||| (!p.leading_colon && p.segments@.len() == 1 && p.segments@[0]@ == value_type_name())
    ||| (p.segments@.len() == 2 && p.segments@[0]@ == value_type_namespace()
        && p.segments@[1]@ == value_type_name())
}

/// The field's declared type denotes the value type.
pub open spec fn spec_field_is_value_type(f: FieldDef) -> bool {
    f.ty matches TypeExpr::Path(p) && spec_path_is_value_type(p)
}

/// The directive sits in the given namespace under the given key, whatever
/// its argument.
pub open spec fn directive_matches(d: Directive, ns: Seq<char>, key: Seq<char>) -> bool {
    d.namespace@ == ns && d.key@ == key
}

/// Some directive in the list matches the namespace and key.
pub open spec fn has_directive(attrs: Seq<Directive>, ns: Seq<char>, key: Seq<char>) -> bool {
    exists|i: int| 0 <= i < attrs.len() && directive_matches(#[trigger] attrs[i], ns, key)
}

/// How many directives in the list match the namespace and key.
pub open spec fn count_directives(attrs: Seq<Directive>, ns: Seq<char>, key: Seq<char>) -> nat
    decreases attrs.len(),
{
    if attrs.len() == 0 {
        0
    } else {
        count_directives(attrs.drop_last(), ns, key) + (if directive_matches(
            attrs.last(),
            ns,
            key,
        ) {
            1nat
        } else {
            0nat
        })
    }
}

/// The directive a synthesized "omit when missing" entry must be: the
/// serialization namespace, the omit key, and the absence predicate's
/// qualified name as argument.
pub open spec fn is_omit_directive(d: Directive) -> bool {
    &&& directive_matches(d, serialization_namespace(), omit_when_missing_key())
    &&& d.argument matches Some(a) && a@ == omit_when_missing_argument()
}

/// The directive a synthesized "use default" entry must be: the serialization
/// namespace, the default key, and no argument.
pub open spec fn is_use_default_directive(d: Directive) -> bool {
    &&& directive_matches(d, serialization_namespace(), use_default_key())
    &&& d.argument is None
}

/// How one transformed field relates to the original. A field of another type
/// is untouched. A field of the value type keeps its type, its site and its
/// existing annotations in order, and gains at the end: an omit directive
/// unless it already had one of that kind, then a use-default directive unless
/// it already had one of that kind.
pub open spec fn annotate_rel(before: FieldDef, after: FieldDef) -> bool {
    if spec_field_is_value_type(before) {
        let n = before.attrs@.len() as int;
        let had_omit = has_directive(
            before.attrs@,
            serialization_namespace(),
            omit_when_missing_key(),
        );
        let had_default = has_directive(
            before.attrs@,
            serialization_namespace(),
            use_default_key(),
        );
        &&& after.ty == before.ty
        &&& after.site == before.site
        &&& after.attrs@.take(n) == before.attrs@
        &&& after.attrs@.len() == n + (if had_omit {
            0int
        } else {
            1int
        }) + (if had_default {
            0int
        } else {
            1int
        })
        &&& (!had_omit ==> is_omit_directive(after.attrs@[n]))
        &&& (!had_default ==> is_use_default_directive(after.attrs@[after.attrs@.len() - 1]))
    } else {
        after == before
    }
}

/// Compares a stored identifier against an expected spelling.
fn str_eq(s: &String, lit: &str) -> (r: bool)
    ensures
        r == (s@ == lit@),
{
    let owned: String = lit.to_owned();
    *s == owned
}

/// Returns whether the type path refers to the value type.
///
/// Accepts `Field`, and `optional_field::Field` with or without a leading
/// `::`.
pub fn is_field(path: &TypePath) -> (r: bool)
    ensures
        r == spec_path_is_value_type(*path),
{
    if !path.leading_colon && path.segments.len() == 1 && str_eq(&path.segments[0], "Field") {
        return true;
    }
    if path.segments.len() == 2 && str_eq(&path.segments[0], "optional_field") && str_eq(
        &path.segments[1],
        "Field",
    ) {
        return true;
    }
    false
}

/// Determines whether the field carries an annotation with the given
/// namespace and key, whatever its argument.
pub fn field_has_attribute(field: &FieldDef, namespace: &str, name: &str) -> (r: bool)
    ensures
        r == has_directive(field.attrs@, namespace@, name@),
{
    let mut i: usize = 0;
    while i < field.attrs.len()
        invariant
            0 <= i <= field.attrs@.len(),
            forall|j: int|
                0 <= j < i ==> !directive_matches(#[trigger] field.attrs@[j], namespace@, name@),
        decreases field.attrs@.len() - i,
    {
        let d = &field.attrs[i];
        if str_eq(&d.namespace, namespace) && str_eq(&d.key, name) {
            return true;
        }
        i += 1;
    }
    false
}

/// Transforms one field: a field of the value type gains the omit and
/// use-default directives it does not already carry; any other field comes
/// back unchanged. Per-field processing reports problems through the result
/// so callers can aggregate them, but this transformation has none to report.
pub fn add_serde_optional_fields(field: FieldDef) -> (res: Result<FieldDef, String>)
    ensures
        res matches Ok(f) && annotate_rel(field, f),
{
    let matched = match &field.ty {
        TypeExpr::Path(path) => is_field(path),
        TypeExpr::Other => false,
    };
    if !matched {
        return Ok(field);
    }
    let had_omit = field_has_attribute(&field, "serde", "skip_serializing_if");
    let had_default = field_has_attribute(&field, "serde", "default");
    let ghost before = field;
    let mut f = field;
    if !had_omit {
        f.attrs.push(
            Directive {
                namespace: "serde".to_owned(),
                key: "skip_serializing_if".to_owned(),
                argument: Some("optional_field::Field::is_missing".to_owned()),
            },
        );
    }
    if !had_default {
        f.attrs.push(
            Directive {
                namespace: "serde".to_owned(),
                key: "default".to_owned(),
                argument: None,
            },
        );
    }
    proof {
        assert(f.attrs@.take(before.attrs@.len() as int) =~= before.attrs@);
    }
    Ok(f)
}

/// Pointwise success: every output field is a possible success result of
/// applying the function to the corresponding input field.
pub open spec fn fields_mapped<F: FnOnce(FieldDef) -> Result<FieldDef, String>>(
    f: F,
    before: Seq<FieldDef>,
    after: Seq<FieldDef>,
) -> bool {
    &&& after.len() == before.len()
    &&& forall|i: int|
        0 <= i < before.len() ==> call_ensures(
            f,
            (before[i],),
            Ok::<FieldDef, String>(#[trigger] after[i]),
        )
}

/// Pointwise success over an enum's variants: every variant's field group is
/// mapped field by field.
pub open spec fn groups_mapped<F: FnOnce(FieldDef) -> Result<FieldDef, String>>(
    f: F,
    before: Seq<FieldGroup>,
    after: Seq<FieldGroup>,
) -> bool {
    &&& after.len() == before.len()
    &&& forall|v: int|
        0 <= v < before.len() ==> fields_mapped(f, before[v].fields@, (#[trigger] after[v]).fields@)
}

/// The single error reported for a definition that is neither a struct nor an
/// enum, attributed to the start of the input.
pub open spec fn is_unsupported_error(e: Error, site: usize) -> bool {
    &&& e.notes@.len() == 1
    &&& e.notes@[0].site == site
    &&& e.notes@[0].message@ == unsupported_item_message()
}

/// Applies the per-field function to every field of one group. Each field is
/// processed independently; every reported problem is kept, attributed to the
/// field's site, and the problems are merged into one error at the end.
pub fn apply_on_fields<F: Copy + Fn(FieldDef) -> Result<FieldDef, String>>(
    fields: Vec<FieldDef>,
    function: F,
) -> (res: Result<Vec<FieldDef>, Error>)
    requires
        forall|fd: FieldDef| #[trigger] function.requires((fd,)),
    ensures
        res matches Ok(out) ==> fields_mapped(function, fields@, out@),
        res matches Err(e) ==> e.wf() && exists|i: int, msg: String|
            0 <= i < fields@.len() && call_ensures(
                function,
                (fields@[i],),
                Err::<FieldDef, String>(msg),
            ),
{
    let ghost orig = fields@;
    let mut rem = fields;
    let mut out: Vec<FieldDef> = Vec::new();
    let mut results: Vec<Result<(), Error>> = Vec::new();
    while rem.len() > 0
        invariant
            forall|fd: FieldDef| #[trigger] function.requires((fd,)),
            rem@ == orig.skip(orig.len() - rem@.len()),
            rem@.len() <= orig.len(),
            forall|j: int| 0 <= j < results@.len() ==> result_wf(#[trigger] results@[j]),
            gathered_notes(results@).len() == 0 ==> (out@.len() == orig.len() - rem@.len()
                && forall|i: int|
                0 <= i < out@.len() ==> call_ensures(
                    function,
                    (orig[i],),
                    Ok::<FieldDef, String>(#[trigger] out@[i]),
                )),
            gathered_notes(results@).len() > 0 ==> exists|i: int, msg: String|
                0 <= i < orig.len() && call_ensures(
                    function,
                    (orig[i],),
                    Err::<FieldDef, String>(msg),
                ),
        decreases rem@.len(),
    {
        let ghost k = orig.len() - rem@.len();
        let fd = rem.remove(0);
        proof {
            assert(fd == orig[k as int]);
            assert(rem@ =~= orig.skip(k + 1));
        }
        let site = fd.site;
        let ghost rs = results@;
        match function(fd) {
            Ok(nf) => {
                out.push(nf);
                results.push(Ok(()));
                proof {
                    lemma_gathered_notes_push_ok(rs);
                }
            },
            Err(msg) => {
                let e = Error::new(site, msg);
                proof {
                    lemma_gathered_notes_push(rs, Err(e));
                }
                results.push(Err(e));
            },
        }
    }
    proof {
        assert(orig.len() - rem@.len() == orig.len());
    }
    match collect_errors(results) {
        Ok(_) => Ok(out),
        Err(e) => Err(e),
    }
}

/// Applies the per-field function across a definition: to the one field group
/// of a struct, or to each variant's group of an enum, merging every variant's
/// problems into one error; anything else is rejected with a single error at
/// the input's start.
pub fn apply_function_to_struct_and_enum_fields<
    F: Copy + Fn(FieldDef) -> Result<FieldDef, String>,
>(
    input: ItemDef,
    function: F,
) -> (res: Result<ItemDef, Error>)
    requires
        forall|fd: FieldDef| #[trigger] function.requires((fd,)),
    ensures
        input matches ItemDef::Unsupported { site } ==> (res matches Err(e)
            && is_unsupported_error(e, site)),
        input matches ItemDef::Struct(g) ==> (match res {
            Ok(out) => out matches ItemDef::Struct(og) && fields_mapped(
                function,
                g.fields@,
                og.fields@,
            ),
            Err(e) => e.wf() && exists|i: int, msg: String|
                0 <= i < g.fields@.len() && call_ensures(
                    function,
                    (g.fields@[i],),
                    Err::<FieldDef, String>(msg),
                ),
        }),
        input matches ItemDef::Enum(vs) ==> (match res {
            Ok(out) => out matches ItemDef::Enum(ovs) && groups_mapped(function, vs@, ovs@),
            Err(e) => e.wf() && exists|v: int, i: int, msg: String|
                0 <= v < vs@.len() && 0 <= i < vs@[v].fields@.len() && call_ensures(
                    function,
                    (vs@[v].fields@[i],),
                    Err::<FieldDef, String>(msg),
                ),
        }),
{
    match input {
        ItemDef::Struct(group) => {
            match apply_on_fields(group.fields, function) {
                Ok(nf) => Ok(ItemDef::Struct(FieldGroup { fields: nf })),
                Err(e) => Err(e),
            }
        },
        ItemDef::Enum(variants) => {
            let ghost vorig = variants@;
            let mut remv = variants;
            let mut outv: Vec<FieldGroup> = Vec::new();
            let mut results: Vec<Result<(), Error>> = Vec::new();
            while remv.len() > 0
                invariant
                    forall|fd: FieldDef| #[trigger] function.requires((fd,)),
                    remv@ == vorig.skip(vorig.len() - remv@.len()),
                    remv@.len() <= vorig.len(),
                    forall|j: int| 0 <= j < results@.len() ==> result_wf(#[trigger] results@[j]),
                    gathered_notes(results@).len() == 0 ==> (outv@.len() == vorig.len()
                        - remv@.len() && forall|v: int|
                        0 <= v < outv@.len() ==> fields_mapped(
                            function,
                            vorig[v].fields@,
                            (#[trigger] outv@[v]).fields@,
                        )),
                    gathered_notes(results@).len() > 0 ==> exists|v: int, i: int, msg: String|
                        0 <= v < vorig.len() && 0 <= i < vorig[v].fields@.len() && call_ensures(
                            function,
                            (vorig[v].fields@[i],),
                            Err::<FieldDef, String>(msg),
                        ),
                decreases remv@.len(),
            {
                let ghost k = vorig.len() - remv@.len();
                let variant = remv.remove(0);
                proof {
                    assert(variant == vorig[k as int]);
                    assert(remv@ =~= vorig.skip(k + 1));
                }
                let ghost rs = results@;
                match apply_on_fields(variant.fields, function) {
                    Ok(nf) => {
                        outv.push(FieldGroup { fields: nf });
                        results.push(Ok(()));
                        proof {
                            lemma_gathered_notes_push_ok(rs);
                        }
                    },
                    Err(e) => {
                        proof {
                            lemma_gathered_notes_push(rs, Err(e));
                        }
                        results.push(Err(e));
                    },
                }
            }
            proof {
                assert(vorig.len() - remv@.len() == vorig.len());
            }
            match collect_errors(results) {
                Ok(_) => Ok(ItemDef::Enum(outv)),
                Err(e) => Err(e),
            }
        },
        ItemDef::Unsupported { site } => Err(
            Error::new(
                site,
                "The attribute can only be applied to struct or enum definitions.".to_owned(),
            ),
        ),
    }
}

/// Pointwise annotation: every output field relates to the corresponding
/// input field as one transformed field relates to its original.
pub open spec fn fields_annotated(before: Seq<FieldDef>, after: Seq<FieldDef>) -> bool {
    &&& after.len() == before.len()
    &&& forall|i: int| 0 <= i < before.len() ==> annotate_rel(before[i], #[trigger] after[i])
}

/// Pointwise annotation over an enum's variants.
pub open spec fn groups_annotated(before: Seq<FieldGroup>, after: Seq<FieldGroup>) -> bool {
    &&& after.len() == before.len()
    &&& forall|v: int|
        0 <= v < before.len() ==> fields_annotated(before[v].fields@, (#[trigger] after[v]).fields@)
}

/// What a pointwise-successful pass with the per-field transformation did to a
/// field group: it annotated every field.
proof fn lemma_mapped_implies_annotated(before: Seq<FieldDef>, after: Seq<FieldDef>)
    requires
        fields_mapped(add_serde_optional_fields, before, after),
    ensures
        fields_annotated(before, after),
{
    assert forall|i: int| 0 <= i < before.len() implies annotate_rel(
        before[i],
        #[trigger] after[i],
    ) by {
        assert(call_ensures(
            add_serde_optional_fields,
            (before[i],),
            Ok::<FieldDef, String>(after[i]),
        ));
    }
}

/// Transforms a definition so a serialization layer treats its tri-state
/// fields correctly: every field of the value type in the struct, or in each
/// enum variant, gains the omit-when-missing and use-default directives it
/// does not already carry, and every other field is untouched. A definition
/// that is neither a struct nor an enum is rejected with a single error
/// attributed to the input's start, and no output is produced.
pub fn serde_optional_fields(input: ItemDef) -> (res: Result<ItemDef, Error>)
    ensures
        res is Err <==> input is Unsupported,
        input matches ItemDef::Unsupported { site } ==> (res matches Err(e)
            && is_unsupported_error(e, site)),
        input matches ItemDef::Struct(g) ==> (res matches Ok(out) && out matches ItemDef::Struct(og)
            && fields_annotated(g.fields@, og.fields@)),
        input matches ItemDef::Enum(vs) ==> (res matches Ok(out) && out matches ItemDef::Enum(ovs)
            && groups_annotated(vs@, ovs@)),
{
    let ghost gin = input;
    let res = apply_function_to_struct_and_enum_fields(input, add_serde_optional_fields);
    proof {
        match gin {
            ItemDef::Struct(g) => {
                match &res {
                    Ok(out) => {
                        match out {
                            ItemDef::Struct(og) => {
                                lemma_mapped_implies_annotated(g.fields@, og.fields@);
                            },
                            _ => {
                                assert(false);
                            },
                        }
                    },
                    Err(_) => {
                        let (i, msg): (int, String) = choose|i: int, msg: String|
                            0 <= i < g.fields@.len() && call_ensures(
                                add_serde_optional_fields,
                                (g.fields@[i],),
                                Err::<FieldDef, String>(msg),
                            );
                        assert(call_ensures(
                            add_serde_optional_fields,
                            (g.fields@[i],),
                            Err::<FieldDef, String>(msg),
                        ));
                        assert(false);
                    },
                }
            },
            ItemDef::Enum(vs) => {
                match &res {
                    Ok(out) => {
                        match out {
                            ItemDef::Enum(ovs) => {
                                assert forall|v: int| 0 <= v < vs@.len() implies fields_annotated(
                                    vs@[v].fields@,
                                    (#[trigger] ovs@[v]).fields@,
                                ) by {
                                    lemma_mapped_implies_annotated(
                                        vs@[v].fields@,
                                        ovs@[v].fields@,
                                    );
                                }
                            },
                            _ => {
                                assert(false);
                            },
                        }
                    },
                    Err(_) => {
                        let (v, i, msg): (int, int, String) = choose|v: int, i: int, msg: String|
                            0 <= v < vs@.len() && 0 <= i < vs@[v].fields@.len() && call_ensures(
                                add_serde_optional_fields,
                                (vs@[v].fields@[i],),
                                Err::<FieldDef, String>(msg),
                            );
                        assert(call_ensures(
                            add_serde_optional_fields,
                            (vs@[v].fields@[i],),
                            Err::<FieldDef, String>(msg),
                        ));
                        assert(false);
                    },
                }
            },
            ItemDef::Unsupported { .. } => {},
        }
    }
    res
}

/// Counting matches distributes over concatenation.
pub proof fn lemma_count_directives_concat(
    a: Seq<Directive>,
    b: Seq<Directive>,
    ns: Seq<char>,
    key: Seq<char>,
)
    ensures
        count_directives(a + b, ns, key) == count_directives(a, ns, key) + count_directives(
            b,
            ns,
            key,
        ),
    decreases b.len(),
{
    if b.len() == 0 {
        assert(a + b =~= a);
    } else {
        lemma_count_directives_concat(a, b.drop_last(), ns, key);
        assert((a + b).drop_last() =~= a + b.drop_last());
        assert((a + b).last() == b.last());
    }
}

/// Some directive matches exactly when the count of matches is positive.
pub proof fn lemma_has_directive_iff_count_positive(
    attrs: Seq<Directive>,
    ns: Seq<char>,
    key: Seq<char>,
)
    ensures
        has_directive(attrs, ns, key) <==> count_directives(attrs, ns, key) > 0,
    decreases attrs.len(),
{
    if attrs.len() > 0 {
        lemma_has_directive_iff_count_positive(attrs.drop_last(), ns, key);
        let last = attrs.len() - 1;
        if directive_matches(attrs[last], ns, key) {
            assert(has_directive(attrs, ns, key));
        } else {
            if has_directive(attrs, ns, key) {
                let i = choose|i: int|
                    0 <= i < attrs.len() && directive_matches(#[trigger] attrs[i], ns, key);
                assert(attrs.drop_last()[i] == attrs[i]);
                assert(has_directive(attrs.drop_last(), ns, key));
            }
            if has_directive(attrs.drop_last(), ns, key) {
                let i = choose|i: int|
                    0 <= i < attrs.drop_last().len() && directive_matches(
                        #[trigger] attrs.drop_last()[i],
                        ns,
                        key,
                    );
                assert(attrs[i] == attrs.drop_last()[i]);
                assert(has_directive(attrs, ns, key));
            }
        }
    }
}

/// The two directive keys differ, so an entry of one kind never counts as the
/// other.
proof fn lemma_directive_keys_differ()
    ensures
        omit_when_missing_key() != use_default_key(),
{
    reveal_strlit("skip_serializing_if");
    reveal_strlit("default");
    assert(omit_when_missing_key().len() == 19);
    assert(use_default_key().len() == 7);
}

/// A field that already carries a hand-written directive of one of the two
/// kinds is not given a second one: on a field of the value type the
/// transformation raises a kind's directive count to exactly one when it was
/// zero and leaves it at its old value otherwise, and on any other field it
/// changes nothing.
pub proof fn lemma_no_duplicate_directives(before: FieldDef, after: FieldDef)
    requires
        annotate_rel(before, after),
    ensures
        spec_field_is_value_type(before) ==> count_directives(
            after.attrs@,
            serialization_namespace(),
            omit_when_missing_key(),
        ) == if has_directive(before.attrs@, serialization_namespace(), omit_when_missing_key()) {
            count_directives(before.attrs@, serialization_namespace(), omit_when_missing_key())
        } else {
            count_directives(before.attrs@, serialization_namespace(), omit_when_missing_key())
                + 1
        },
        spec_field_is_value_type(before) ==> count_directives(
            after.attrs@,
            serialization_namespace(),
            use_default_key(),
        ) == if has_directive(before.attrs@, serialization_namespace(), use_default_key()) {
            count_directives(before.attrs@, serialization_namespace(), use_default_key())
        } else {
            count_directives(before.attrs@, serialization_namespace(), use_default_key()) + 1
        },
        !spec_field_is_value_type(before) ==> after == before,
{
    if spec_field_is_value_type(before) {
        lemma_directive_keys_differ();
        let n = before.attrs@.len() as int;
        let appended = after.attrs@.skip(n);
        assert(after.attrs@ =~= after.attrs@.take(n) + appended);
        lemma_count_directives_concat(
            before.attrs@,
            appended,
            serialization_namespace(),
            omit_when_missing_key(),
        );
        lemma_count_directives_concat(
            before.attrs@,
            appended,
            serialization_namespace(),
            use_default_key(),
        );
        lemma_count_small_seq(appended, serialization_namespace(), omit_when_missing_key());
        lemma_count_small_seq(appended, serialization_namespace(), use_default_key());
    }
}

/// Spells out the match count of a list of at most two directives.
proof fn lemma_count_small_seq(s: Seq<Directive>, ns: Seq<char>, key: Seq<char>)
    requires
        s.len() <= 2,
    ensures
        count_directives(s, ns, key) == (if s.len() >= 1 && directive_matches(s[0], ns, key) {
            1nat
        } else {
            0nat
        }) + (if s.len() >= 2 && directive_matches(s[1], ns, key) {
            1nat
        } else {
            0nat
        }),
{
    assert(count_directives(Seq::<Directive>::empty(), ns, key) == 0);
    if s.len() == 2 {
        assert(s.drop_last().drop_last() =~= Seq::<Directive>::empty());
        assert(s.drop_last().last() == s[0]);
        assert(s.last() == s[1]);
        assert(count_directives(s.drop_last(), ns, key) == (if directive_matches(s[0], ns, key) {
            1nat
        } else {
            0nat
        }));
    } else if s.len() == 1 {
        assert(s.drop_last() =~= Seq::<Directive>::empty());
        assert(s.last() == s[0]);
        assert(count_directives(s, ns, key) == (if directive_matches(s[0], ns, key) {
            1nat
        } else {
            0nat
        }));
    }
}

} // verus!
