//! The header collection of a request, kept in `http::HeaderMap`, and its
//! mathematical model: the sequence of (name, value) pairs in the order in
//! which the map hands them out.

use vstd::prelude::*;

verus! {

/// `http::HeaderMap`, the multimap from header names to values. Nothing is
/// known of what is inside but through `header_fields`.
#[verifier::external_type_specification]
#[verifier::external_body]
#[verifier::reject_recursive_types(T)]
pub struct ExHeaderMap<T>(http::HeaderMap<T>);

/// `http::HeaderValue`, the value of one header field. It is only carried.
#[verifier::external_type_specification]
#[verifier::external_body]
pub struct ExHeaderValue(http::HeaderValue);

/// The fields that a header map holds, in iteration order: each name in its
/// canonical lower-case spelling, each value as its raw bytes. The values of
/// one name stand next to each other, in the order in which they were added.
pub uninterp spec fn header_fields(m: http::HeaderMap<http::HeaderValue>) -> Seq<(Seq<char>, Seq<u8>)>;

/// The names that a header map can still take a value for: those for which
/// `HeaderMap::try_insert` does not answer that the map has reached its size
/// limit. It depends on the map alone.
pub uninterp spec fn names_with_room(m: http::HeaderMap<http::HeaderValue>) -> Set<Seq<char>>;

/// A byte string that can be the value of a header field: every byte is a
/// tab or at least 32, and none is 127.
pub open spec fn is_legal_value(value: Seq<u8>) -> bool {
    forall|i: int| 0 <= i < value.len() ==> is_legal_value_byte(#[trigger] value[i])
}

/// A byte that a header value may hold.
pub open spec fn is_legal_value_byte(b: u8) -> bool {
    (b >= 32 && b != 127) || b == 9
}

/// A character that every header name may hold and that the map stores as it is.
pub open spec fn is_plain_name_char(c: char) -> bool {
    ('a' <= c && c <= 'z') || ('0' <= c && c <= '9') || c == '-'
}

/// A header name in canonical spelling: lower-case letters, digits and hyphens,
/// between 1 and 64 of them.
pub open spec fn is_plain_name(name: Seq<char>) -> bool {
    &&& 0 < name.len() <= 64
    &&& forall|i: int| 0 <= i < name.len() ==> is_plain_name_char(#[trigger] name[i])
}

/// The value of the first field called `name`, if there is one.
pub open spec fn first_of(fields: Seq<(Seq<char>, Seq<u8>)>, name: Seq<char>) -> Option<Seq<u8>>
    decreases fields.len(),
{
    if fields.len() == 0 {
        None
    } else if fields[0].0 == name {
        Some(fields[0].1)
    } else {
        first_of(fields.drop_first(), name)
    }
}

/// The fields that are not called `name`, in their order.
pub open spec fn without(fields: Seq<(Seq<char>, Seq<u8>)>, name: Seq<char>) -> Seq<(Seq<char>, Seq<u8>)>
    decreases fields.len(),
{
    if fields.len() == 0 {
        fields
    } else if fields[0].0 == name {
        without(fields.drop_first(), name)
    } else {
        seq![fields[0]] + without(fields.drop_first(), name)
    }
}

/// The fields after `name` has been set to `value`: the first field of that
/// name now holds `value` and the later ones of that name are gone; where
/// there was none, the new field stands at the end. Other fields keep their
/// places.
pub open spec fn with_field(fields: Seq<(Seq<char>, Seq<u8>)>, name: Seq<char>, value: Seq<u8>) -> Seq<(Seq<char>, Seq<u8>)>
    decreases fields.len(),
{
    if fields.len() == 0 {
        seq![(name, value)]
    } else if fields[0].0 == name {
        seq![(name, value)] + without(fields.drop_first(), name)
    } else {
        seq![fields[0]] + with_field(fields.drop_first(), name, value)
    }
}

/// The values of the fields called `name`, in their order.
pub open spec fn values_of(fields: Seq<(Seq<char>, Seq<u8>)>, name: Seq<char>) -> Seq<Seq<u8>>
    decreases fields.len(),
{
    if fields.len() == 0 {
        Seq::empty()
    } else if fields[0].0 == name {
        seq![fields[0].1] + values_of(fields.drop_first(), name)
    } else {
        values_of(fields.drop_first(), name)
    }
}

/// How many fields are called `name`.
pub open spec fn count_of(fields: Seq<(Seq<char>, Seq<u8>)>, name: Seq<char>) -> nat
    decreases fields.len(),
{
    if fields.len() == 0 {
        0
    } else if fields[0].0 == name {
        1 + count_of(fields.drop_first(), name)
    } else {
        count_of(fields.drop_first(), name)
    }
}

/// Calls `HeaderMap::get` with the name as a string and copies the bytes of
/// the value that it finds. Trusted: for a name in canonical spelling the map
/// answers with the first value stored under that name, or with nothing when
/// no field has that name.
#[verifier::external_body]
pub(crate) fn first_value(m: &http::HeaderMap<http::HeaderValue>, name: &str) -> (r: Option<Vec<u8>>)
    requires
        is_plain_name(name@),
    ensures
        r matches Some(v) ==> first_of(header_fields(*m), name@) == Some(v@),
        r is None ==> first_of(header_fields(*m), name@) is None,
{
    match m.get(name) {
        Some(v) => Some(v.as_bytes().to_vec()),
        None => None,
    }
}

/// Calls `HeaderMap::try_insert` with the name and the value built by
/// `HeaderName::from_bytes` and `HeaderValue::from_bytes`. Trusted: it
/// reports success exactly when the value is a legal header value and the map
/// has room for the name; then the named field holds exactly the new value,
/// as `with_field` says. When it reports failure, the fields are as they
/// were.
#[verifier::external_body]
pub(crate) fn try_set_field(m: &mut http::HeaderMap<http::HeaderValue>, name: &str, value: &[u8]) -> (stored: bool)
    requires
        is_plain_name(name@),
    ensures
        stored == (is_legal_value(value@) && names_with_room(*old(m)).contains(name@)),
        stored ==> header_fields(*final(m)) == with_field(header_fields(*old(m)), name@, value@),
        !stored ==> header_fields(*final(m)) == header_fields(*old(m)),
{
    match (http::header::HeaderName::from_bytes(name.as_bytes()), http::HeaderValue::from_bytes(value)) {
        (Ok(n), Ok(v)) => m.try_insert(n, v).is_ok(),
        _ => false,
    }
}

/// Setting a field makes it the value that a lookup of that name finds.
pub proof fn set_field_is_found(fields: Seq<(Seq<char>, Seq<u8>)>, name: Seq<char>, value: Seq<u8>)
    ensures
        first_of(with_field(fields, name, value), name) == Some(value),
    decreases fields.len(),
{
    if fields.len() != 0 && fields[0].0 != name {
        let rest = fields.drop_first();
        set_field_is_found(rest, name, value);
        let out = seq![fields[0]] + with_field(rest, name, value);
        assert(out.drop_first() =~= with_field(rest, name, value));
    }
}

/// After a field was set, no second field of that name is left.
pub proof fn set_field_is_single(fields: Seq<(Seq<char>, Seq<u8>)>, name: Seq<char>, value: Seq<u8>)
    ensures
        count_of(with_field(fields, name, value), name) == 1,
    decreases fields.len(),
{
    if fields.len() == 0 {
        let out = seq![(name, value)];
        assert(out.drop_first() =~= Seq::empty());
        assert(count_of(out.drop_first(), name) == 0);
    } else if fields[0].0 == name {
        let rest = without(fields.drop_first(), name);
        let out = seq![(name, value)] + rest;
        assert(out.drop_first() =~= rest);
        without_has_none(fields.drop_first(), name);
    } else {
        let rest = fields.drop_first();
        set_field_is_single(rest, name, value);
        let out = seq![fields[0]] + with_field(rest, name, value);
        assert(out.drop_first() =~= with_field(rest, name, value));
    }
}

/// Leaving out the fields of one name leaves none of that name.
pub proof fn without_has_none(fields: Seq<(Seq<char>, Seq<u8>)>, name: Seq<char>)
    ensures
        count_of(without(fields, name), name) == 0,
        first_of(without(fields, name), name) is None,
    decreases fields.len(),
{
    if fields.len() != 0 {
        let rest = fields.drop_first();
        without_has_none(rest, name);
        if fields[0].0 != name {
            let out = seq![fields[0]] + without(rest, name);
            assert(out.drop_first() =~= without(rest, name));
        }
    }
}

/// Setting a field leaves every field of another name as it was, in its place
/// among the others.
pub proof fn set_field_keeps_others(fields: Seq<(Seq<char>, Seq<u8>)>, name: Seq<char>, value: Seq<u8>)
    ensures
        without(with_field(fields, name, value), name) == without(fields, name),
    decreases fields.len(),
{
    if fields.len() == 0 {
        let out = seq![(name, value)];
        assert(out.drop_first() =~= Seq::empty());
        assert(without(out.drop_first(), name) =~= Seq::empty());
    } else if fields[0].0 == name {
        let rest = without(fields.drop_first(), name);
        let out = seq![(name, value)] + rest;
        assert(out.drop_first() =~= rest);
        without_is_idempotent(fields.drop_first(), name);
    } else {
        let rest = fields.drop_first();
        set_field_keeps_others(rest, name, value);
        let out = seq![fields[0]] + with_field(rest, name, value);
        assert(out.drop_first() =~= with_field(rest, name, value));
    }
}

/// Leaving out the fields of one name twice is the same as once.
pub proof fn without_is_idempotent(fields: Seq<(Seq<char>, Seq<u8>)>, name: Seq<char>)
    ensures
        without(without(fields, name), name) == without(fields, name),
    decreases fields.len(),
{
    if fields.len() != 0 {
        let rest = fields.drop_first();
        without_is_idempotent(rest, name);
        if fields[0].0 != name {
            let out = seq![fields[0]] + without(rest, name);
            assert(out.drop_first() =~= without(rest, name));
        }
    }
}

/// A lookup of another name is not changed by setting a field.
pub proof fn set_field_keeps_other_lookups(fields: Seq<(Seq<char>, Seq<u8>)>, name: Seq<char>, value: Seq<u8>, other: Seq<char>)
    requires
        other != name,
    ensures
        first_of(with_field(fields, name, value), other) == first_of(fields, other),
    decreases fields.len(),
{
    if fields.len() == 0 {
        let out = seq![(name, value)];
        assert(out.drop_first() =~= Seq::empty());
        assert(first_of(out.drop_first(), other) is None);
    } else if fields[0].0 == name {
        let rest = without(fields.drop_first(), name);
        let out = seq![(name, value)] + rest;
        assert(out.drop_first() =~= rest);
        without_keeps_other_lookups(fields.drop_first(), name, other);
    } else {
        let rest = fields.drop_first();
        set_field_keeps_other_lookups(rest, name, value, other);
        let out = seq![fields[0]] + with_field(rest, name, value);
        assert(out.drop_first() =~= with_field(rest, name, value));
    }
}

/// A lookup of another name is not changed by leaving out the fields of one.
pub proof fn without_keeps_other_lookups(fields: Seq<(Seq<char>, Seq<u8>)>, name: Seq<char>, other: Seq<char>)
    requires
        other != name,
    ensures
        first_of(without(fields, name), other) == first_of(fields, other),
    decreases fields.len(),
{
    if fields.len() != 0 {
        let rest = fields.drop_first();
        without_keeps_other_lookups(rest, name, other);
        if fields[0].0 != name {
            let out = seq![fields[0]] + without(rest, name);
            assert(out.drop_first() =~= without(rest, name));
        }
    }
}

/// The values of another name are not changed by leaving out the fields of
/// one.
pub proof fn without_keeps_other_values(fields: Seq<(Seq<char>, Seq<u8>)>, name: Seq<char>, other: Seq<char>)
    requires
        other != name,
    ensures
        values_of(without(fields, name), other) == values_of(fields, other),
    decreases fields.len(),
{
    if fields.len() != 0 {
        let rest = fields.drop_first();
        without_keeps_other_values(rest, name, other);
        if fields[0].0 != name {
            let out = seq![fields[0]] + without(rest, name);
            assert(out.drop_first() =~= without(rest, name));
        }
    }
}

/// Setting a field leaves the whole list of values of every other name as it
/// was.
pub proof fn set_field_keeps_other_values(fields: Seq<(Seq<char>, Seq<u8>)>, name: Seq<char>, value: Seq<u8>, other: Seq<char>)
    requires
        other != name,
    ensures
        values_of(with_field(fields, name, value), other) == values_of(fields, other),
    decreases fields.len(),
{
    if fields.len() == 0 {
        let out = seq![(name, value)];
        assert(out.drop_first() =~= Seq::empty());
        assert(values_of(out.drop_first(), other) =~= Seq::empty());
    } else if fields[0].0 == name {
        let rest = without(fields.drop_first(), name);
        let out = seq![(name, value)] + rest;
        assert(out.drop_first() =~= rest);
        without_keeps_other_values(fields.drop_first(), name, other);
    } else {
        let rest = fields.drop_first();
        set_field_keeps_other_values(rest, name, value, other);
        let out = seq![fields[0]] + with_field(rest, name, value);
        assert(out.drop_first() =~= with_field(rest, name, value));
    }
}

/// After a field was set, its name has the new value and no other.
pub proof fn set_field_is_only_value(fields: Seq<(Seq<char>, Seq<u8>)>, name: Seq<char>, value: Seq<u8>)
    ensures
        values_of(with_field(fields, name, value), name) == seq![value],
    decreases fields.len(),
{
    if fields.len() == 0 {
        let out = seq![(name, value)];
        assert(out.drop_first() =~= Seq::empty());
        assert(values_of(out.drop_first(), name) =~= Seq::empty());
        assert(values_of(out, name) =~= seq![value]);
    } else if fields[0].0 == name {
        let rest = without(fields.drop_first(), name);
        let out = seq![(name, value)] + rest;
        assert(out.drop_first() =~= rest);
        without_has_no_value(fields.drop_first(), name);
        assert(values_of(out, name) =~= seq![value]);
    } else {
        let rest = fields.drop_first();
        set_field_is_only_value(rest, name, value);
        let out = seq![fields[0]] + with_field(rest, name, value);
        assert(out.drop_first() =~= with_field(rest, name, value));
    }
}

/// Leaving out the fields of one name leaves no value of that name.
pub proof fn without_has_no_value(fields: Seq<(Seq<char>, Seq<u8>)>, name: Seq<char>)
    ensures
        values_of(without(fields, name), name) == Seq::<Seq<u8>>::empty(),
    decreases fields.len(),
{
    if fields.len() != 0 {
        let rest = fields.drop_first();
        without_has_no_value(rest, name);
        if fields[0].0 != name {
            let out = seq![fields[0]] + without(rest, name);
            assert(out.drop_first() =~= without(rest, name));
        }
    }
}

} // verus!
