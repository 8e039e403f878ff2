//! The checks behind deriving `AsContext` for a struct: the struct must hold a
//! `Context` directly in exactly one field, never wrapped in another type, and
//! must have no lifetime parameters.
use vstd::prelude::*;

verus! {

/// Whether the identifiers of a type path name `Context`: either `Context` alone
/// or `async_local::Context`.
pub open spec fn is_context_path(segments: Seq<Seq<char>>) -> bool {
    segments == seq!["async_local"@, "Context"@] || segments == seq!["Context"@]
}

/// Whether `s` is the text `lit`.
fn text_is(s: &str, lit: &str) -> (r: bool)
    ensures
        r == (s@ == lit@),
{
    let n = s.unicode_len();
    if n != lit.unicode_len() {
        return false;
    }
    let mut i: usize = 0;
    while i < n
        invariant
            n == s@.len(),
            n == lit@.len(),
            i <= n,
            forall|j: int| 0 <= j < i ==> s@[j] == lit@[j],
        decreases n - i,
    {
        if s.get_char(i) != lit.get_char(i) {
            return false;
        }
        i = i + 1;
    }
    assert(s@ =~= lit@);
    true
}

/// Whether the identifiers `segments` of a type path name `Context`.
pub fn is_context(segments: &Vec<String>) -> (r: bool)
    ensures
        r == is_context_path(segments.deep_view()),
{
    proof {
        reveal_strlit("async_local");
        reveal_strlit("Context");
    }
    let ghost segs = segments.deep_view();
    if segments.len() == 2 {
        let a = text_is(segments[0].as_str(), "async_local");
        let b = text_is(segments[1].as_str(), "Context");
        proof {
            assert(segs[0] == segments@[0]@);
            assert(segs[1] == segments@[1]@);
            if a && b {
                assert(segs =~= seq!["async_local"@, "Context"@]);
            }
            if segs == seq!["async_local"@, "Context"@] {
                assert(segs[0] == "async_local"@);
                assert(segs[1] == "Context"@);
            }
            assert(segs.len() != seq!["Context"@].len());
        }
        a && b
    } else if segments.len() == 1 {
        let a = text_is(segments[0].as_str(), "Context");
        proof {
            assert(segs[0] == segments@[0]@);
            if a {
                assert(segs =~= seq!["Context"@]);
            }
            if segs == seq!["Context"@] {
                assert(segs[0] == "Context"@);
            }
        }
        a
    } else {
        proof {
            assert(segs.len() == segments@.len());
            assert(seq!["Context"@].len() == 1);
            assert(seq!["async_local"@, "Context"@].len() == 2);
        }
        false
    }
}

/// A path type as the derive sees it: the identifiers of its segments and, when
/// the first angle-bracketed argument of its last segment is itself a path type,
/// that argument's identifiers.
pub struct TypePathModel {
    pub segments: Vec<String>,
    pub first_type_arg: Option<Vec<String>>,
}

/// A field of the struct: its name (none in a tuple struct) and its type, when
/// that is a path type.
pub struct FieldModel {
    pub name: Option<String>,
    pub type_path: Option<TypePathModel>,
}

/// How the field that holds the context is reached from `self`.
#[derive(PartialEq, Eq, Debug)]
pub enum ContextMember {
    /// By its name.
    Named(String),
    /// By its position, in a tuple struct.
    Unnamed(usize),
}

/// The item that `AsContext` is derived for.
pub struct DeriveInputModel {
    /// The number of lifetime parameters of the item.
    pub lifetimes: usize,
    /// Whether the item is a struct.
    pub is_struct: bool,
    /// The fields of the struct, in declaration order.
    pub fields: Vec<FieldModel>,
}

/// Why `AsContext` cannot be derived.
#[derive(PartialEq, Eq, Debug)]
pub enum DeriveError {
    /// The item has this many lifetime parameters, each one reported.
    Lifetimes(usize),
    /// The item is not a struct.
    NotAStruct,
    /// These fields hold a `Context` inside another type.
    WrappedContext(Vec<usize>),
    /// No field is a `Context`.
    NoContext,
    /// These fields, more than one, are each a `Context`.
    MultipleContexts(Vec<usize>),
}

/// Whether a field is a `Context` (`wrapped` false) or holds a `Context` as the
/// first type argument of its type (`wrapped` true).
pub open spec fn field_matches(f: FieldModel, wrapped: bool) -> bool {
    match f.type_path {
        Some(p) => if wrapped {
            match p.first_type_arg {
                Some(a) => is_context_path(a.deep_view()),
                None => false,
            }
        } else {
            is_context_path(p.segments.deep_view())
        },
        None => false,
    }
}

/// The positions, in increasing order, of the fields that match.
pub open spec fn matching_field_indices(fields: Seq<FieldModel>, wrapped: bool) -> Seq<usize>
    decreases fields.len(),
{
    if fields.len() == 0 {
        seq![]
    } else {
        let r = matching_field_indices(fields.drop_last(), wrapped);
        if field_matches(fields.last(), wrapped) {
            r.push((fields.len() - 1) as usize)
        } else {
            r
        }
    }
}

/// The matching positions are exactly the positions of the fields that match,
/// each listed once, in increasing order, and all within the field list.
pub proof fn lemma_matching_indices_are_the_matches(fields: Seq<FieldModel>, wrapped: bool)
    requires
        fields.len() <= usize::MAX,
    ensures
        forall|i: int| 0 <= i < matching_field_indices(fields, wrapped).len()
            ==> #[trigger] matching_field_indices(fields, wrapped)[i] < fields.len()
                && field_matches(fields[matching_field_indices(fields, wrapped)[i] as int], wrapped),
        forall|j: int| 0 <= j < fields.len() && field_matches(#[trigger] fields[j], wrapped)
            ==> matching_field_indices(fields, wrapped).contains(j as usize),
        forall|a: int, b: int| 0 <= a < b < matching_field_indices(fields, wrapped).len()
            ==> matching_field_indices(fields, wrapped)[a] < matching_field_indices(fields, wrapped)[b],
        matching_field_indices(fields, wrapped).len() <= fields.len(),
    decreases fields.len(),
{
    if fields.len() > 0 {
        let n = fields.len() - 1;
        let init = fields.drop_last();
        lemma_matching_indices_are_the_matches(init, wrapped);
        let r = matching_field_indices(init, wrapped);
        let full = matching_field_indices(fields, wrapped);
        assert(forall|i: int| 0 <= i < n ==> init[i] == fields[i]);
        if field_matches(fields.last(), wrapped) {
            assert(full == r.push(n as usize));
        } else {
            assert(full == r);
        }
        assert forall|i: int| 0 <= i < full.len()
            implies #[trigger] full[i] < fields.len() && field_matches(fields[full[i] as int], wrapped) by {
            if i < r.len() {
                assert(full[i] == r[i]);
                assert(r[i] < init.len());
                assert(init[r[i] as int] == fields[r[i] as int]);
            } else {
                assert(full[i] == n);
            }
        }
        assert forall|j: int| 0 <= j < fields.len() && field_matches(#[trigger] fields[j], wrapped)
            implies full.contains(j as usize) by {
            if j == n {
                assert(full[r.len() as int] == j as usize);
            } else {
                assert(init[j] == fields[j]);
                assert(r.contains(j as usize));
                let k = choose|k: int| 0 <= k < r.len() && r[k] == j as usize;
                assert(full[k] == j as usize);
            }
        }
        assert forall|a: int, b: int| 0 <= a < b < full.len() implies full[a] < full[b] by {
            if b >= r.len() {
                assert(full[b] == n);
                assert(full[a] == r[a]);
                assert(r[a] < init.len());
            } else {
                assert(full[a] == r[a]);
                assert(full[b] == r[b]);
            }
        }
    }
}

fn field_matches_exec(f: &FieldModel, wrapped: bool) -> (r: bool)
    ensures
        r == field_matches(*f, wrapped),
{
    match &f.type_path {
        Some(p) => if wrapped {
            match &p.first_type_arg {
                Some(a) => is_context(a),
                None => false,
            }
        } else {
            is_context(&p.segments)
        },
        None => false,
    }
}

fn matching_fields(fields: &Vec<FieldModel>, wrapped: bool) -> (r: Vec<usize>)
    ensures
        r@ == matching_field_indices(fields@, wrapped),
{
    let mut r: Vec<usize> = Vec::new();
    let mut i: usize = 0;
    while i < fields.len()
        invariant
            i <= fields@.len(),
            r@ == matching_field_indices(fields@.take(i as int), wrapped),
        decreases fields@.len() - i,
    {
        assert(fields@.take(i + 1).drop_last() =~= fields@.take(i as int));
        if field_matches_exec(&fields[i], wrapped) {
            r.push(i);
        }
        i = i + 1;
    }
    assert(fields@.take(fields@.len() as int) =~= fields@);
    r
}

/// Checks whether `AsContext` can be derived for `input`, and finds the field
/// that holds the context. The checks come in this order: lifetime parameters,
/// that the item is a struct, fields that wrap a `Context`, then that exactly one
/// field is a `Context`.
pub fn check_as_context(input: &DeriveInputModel) -> (r: Result<usize, DeriveError>)
    ensures
        match r {
            Ok(i) => {
                &&& i < input.fields@.len()
                &&& field_matches(input.fields@[i as int], false)
                &&& forall|j: int| 0 <= j < input.fields@.len() && j != i
                    ==> !field_matches(#[trigger] input.fields@[j], false)
                &&& forall|j: int| 0 <= j < input.fields@.len() ==> !field_matches(#[trigger] input.fields@[j], true)
                &&& input.lifetimes == 0
                &&& input.is_struct
                &&& matching_field_indices(input.fields@, true).len() == 0
                &&& matching_field_indices(input.fields@, false) == seq![i]
            },
            Err(DeriveError::Lifetimes(n)) => n == input.lifetimes && n > 0,
            Err(DeriveError::NotAStruct) => input.lifetimes == 0 && !input.is_struct,
            Err(DeriveError::WrappedContext(w)) => {
                &&& forall|j: usize| #[trigger] w@.contains(j)
                    <==> (j < input.fields@.len() && field_matches(input.fields@[j as int], true))
                &&& input.lifetimes == 0
                &&& input.is_struct
                &&& w@ == matching_field_indices(input.fields@, true)
                &&& w@.len() > 0
            },
            Err(DeriveError::NoContext) => {
                &&& forall|j: int| 0 <= j < input.fields@.len() ==> !field_matches(#[trigger] input.fields@[j], false)
                &&& forall|j: int| 0 <= j < input.fields@.len() ==> !field_matches(#[trigger] input.fields@[j], true)
                &&& input.lifetimes == 0
                &&& input.is_struct
                &&& matching_field_indices(input.fields@, true).len() == 0
                &&& matching_field_indices(input.fields@, false).len() == 0
            },
            Err(DeriveError::MultipleContexts(c)) => {
                &&& forall|j: usize| #[trigger] c@.contains(j)
                    <==> (j < input.fields@.len() && field_matches(input.fields@[j as int], false))
                &&& input.lifetimes == 0
                &&& input.is_struct
                &&& matching_field_indices(input.fields@, true).len() == 0
                &&& c@ == matching_field_indices(input.fields@, false)
                &&& c@.len() > 1
            },
        },
{
    let field_count = input.fields.len();
    proof {
        assert(input.fields@.len() == field_count);
        lemma_matching_indices_are_the_matches(input.fields@, true);
        lemma_matching_indices_are_the_matches(input.fields@, false);
    }
    if input.lifetimes > 0 {
        return Err(DeriveError::Lifetimes(input.lifetimes));
    }
    if !input.is_struct {
        return Err(DeriveError::NotAStruct);
    }
    let wrapped = matching_fields(&input.fields, true);
    if wrapped.len() > 0 {
        return Err(DeriveError::WrappedContext(wrapped));
    }
    let contexts = matching_fields(&input.fields, false);
    if contexts.len() == 0 {
        return Err(DeriveError::NoContext);
    }
    if contexts.len() > 1 {
        return Err(DeriveError::MultipleContexts(contexts));
    }
    let i = contexts[0];
    assert(contexts@ =~= seq![i]);
    proof {
        assert(contexts@[0] == i);
        assert forall|j: int| 0 <= j < input.fields@.len() && j != i
            implies !field_matches(#[trigger] input.fields@[j], false) by {
            if field_matches(input.fields@[j], false) {
                assert(contexts@.contains(j as usize));
            }
        }
    }
    Ok(i)
}

/// How the field at position `i` is reached from `self`: by its name if it has
/// one, else by its position.
pub fn context_member(input: &DeriveInputModel, i: usize) -> (m: ContextMember)
    requires
        i < input.fields@.len(),
    ensures
        match input.fields@[i as int].name {
            Some(n) => m == ContextMember::Named(n),
            None => m == ContextMember::Unnamed(i),
        },
{
    match &input.fields[i].name {
        Some(n) => ContextMember::Named(n.clone()),
        None => ContextMember::Unnamed(i),
    }
}

} // verus!
