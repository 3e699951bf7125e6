//! User and room identifiers, and lists of them.

use uuid::Uuid;
use vstd::prelude::*;

verus! {

/// `uuid::Uuid`, the identifier of users and rooms. Its bytes are hidden
/// from the verifier: an identifier is only carried along and compared.
#[verifier::external_type_specification]
#[verifier::external_body]
pub struct ExUuid(Uuid);

/// `Uuid::new_v4`: a random identifier. Nothing is claimed of its value.
/// The call panics where the operating system has no random bytes to
/// give.
pub assume_specification[ Uuid::new_v4 ]() -> (id: Uuid);

/// `Clone::clone` of `Uuid`, which the `uuid` crate derives beside `Copy`:
/// the clone is the same identifier.
pub assume_specification[ <Uuid as Clone>::clone ](id: &Uuid) -> (copy: Uuid)
    ensures
        copy == *id,
;

/// `==` on `Uuid`, which the `uuid` crate derives over the sixteen bytes:
/// true exactly when both are the same identifier.
#[verifier::external_body]
pub(crate) fn same_id(a: &Uuid, b: &Uuid) -> (same: bool)
    ensures
        same == (*a == *b),
{
    a == b
}

/// The text that `uuid` prints for an identifier: thirty-two hexadecimal
/// digits in lower case, in five groups with hyphens between.
pub uninterp spec fn id_text(id: Uuid) -> Seq<char>;

/// `to_string` of a `Uuid`, which goes by its `Display`: the text depends
/// on the identifier alone, and is given the name `id_text`.
#[verifier::external_body]
pub(crate) fn uuid_text(id: &Uuid) -> (text: String)
    ensures
        text@ == id_text(*id),
{
    id.to_string()
}

/// How many times `id` stands in `list`.
pub open spec fn occurrences(list: Seq<Uuid>, id: Uuid) -> nat {
    list.to_multiset().count(id)
}

/// An identifier is in a list exactly when it stands there at least once.
pub proof fn lemma_occurs(list: Seq<Uuid>, id: Uuid)
    ensures
        list.contains(id) <==> occurrences(list, id) > 0,
{
    vstd::seq_lib::to_multiset_contains(list, id);
}

/// Putting an identifier at the end of a list adds one to the times it
/// stands there, and leaves every other identifier's count alone.
pub proof fn lemma_push_occurrences(list: Seq<Uuid>, id: Uuid, other: Uuid)
    ensures
        list.push(id).contains(id),
        occurrences(list.push(id), id) == occurrences(list, id) + 1,
        other != id ==> occurrences(list.push(id), other) == occurrences(list, other),
{
    vstd::seq_lib::to_multiset_build(list, id);
    assert(list.push(id)[list.len() as int] == id);
}

/// Taking the first entry of an identifier out of a list takes one from
/// the times it stands there, if it stands there at all, and leaves every
/// other identifier's count alone. A list without the identifier stays
/// as it is.
pub proof fn lemma_remove_value_occurrences(list: Seq<Uuid>, id: Uuid, other: Uuid)
    ensures
        !list.contains(id) ==> list.remove_value(id) == list,
        list.contains(id) ==> occurrences(list.remove_value(id), id) == occurrences(list, id) - 1,
        list.remove_value(id).contains(id) <==> occurrences(list, id) > 1,
        other != id ==> occurrences(list.remove_value(id), other) == occurrences(list, other),
{
    list.index_of_first_ensures(id);
    lemma_occurs(list, id);
    lemma_occurs(list.remove_value(id), id);
    match list.index_of_first(id) {
        Some(i) => {
            vstd::seq_lib::to_multiset_remove(list, i);
        },
        None => {},
    }
}

/// An identifier put at the end of a list that did not hold it, and then
/// taken out, leaves the list as it was.
pub proof fn lemma_push_then_remove_value(list: Seq<Uuid>, id: Uuid)
    requires
        !list.contains(id),
    ensures
        list.push(id).remove_value(id) == list,
{
    let longer = list.push(id);
    longer.index_of_first_ensures(id);
    assert(longer[list.len() as int] == id);
}

/// Where `id` first occurs in `list`, if it does.
pub fn find_id(list: &Vec<Uuid>, id: &Uuid) -> (found: Option<usize>)
    ensures
        match found {
            Some(i) => {
                &&& i < list.len()
                &&& list@[i as int] == *id
                &&& forall|j: int| 0 <= j < i ==> list@[j] != *id
                &&& list@.index_of_first(*id) == Some(i as int)
            },
            None => !list@.contains(*id) && list@.index_of_first(*id) is None,
        },
{
    let mut i: usize = 0;
    while i < list.len()
        invariant
            i <= list.len(),
            forall|j: int| 0 <= j < i ==> list@[j] != *id,
        decreases list.len() - i,
    {
        if same_id(&list[i], id) {
            proof {
                list@.index_of_first_ensures(*id);
            }
            return Some(i);
        }
        i += 1;
    }
    proof {
        list@.index_of_first_ensures(*id);
    }
    None
}

/// Whether `id` occurs in `list`.
pub fn holds_id(list: &Vec<Uuid>, id: &Uuid) -> (found: bool)
    ensures
        found == list@.contains(*id),
{
    find_id(list, id).is_some()
}

/// Takes the first occurrence of `element` out of `list` and says whether
/// there was one.
pub fn remove_ref(list: &mut Vec<Uuid>, element: &Uuid) -> (removed: bool)
    ensures
        removed == old(list)@.contains(*element),
        final(list)@ == old(list)@.remove_value(*element),
        !removed ==> final(list)@ == old(list)@,
{
    match find_id(list, element) {
        Some(i) => {
            list.remove(i);
            true
        },
        None => false,
    }
}

} // verus!
