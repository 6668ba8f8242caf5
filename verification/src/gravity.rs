use vstd::prelude::*;

verus! {

/// The shape of a gravity field: a sphere pulls towards its centre, a
/// half-plane pulls along its own downward axis.
#[derive(Clone, Copy, Debug, PartialEq, Eq, Structural)]
pub enum GravityFieldType {
    Sphere,
    HalfPlane,
}

/// A body that bends gravity for whatever it touches. When a character
/// touches several fields, the one with the highest priority wins.
#[derive(Clone, Copy, Debug, PartialEq, Eq, Structural)]
pub struct GravityField {
    pub field_type: GravityFieldType,
    pub priority: u8,
}

/// Contact `i` of `contacts` is with a gravity field.
pub open spec fn touches_field(contacts: Seq<Option<GravityField>>, i: int) -> bool {
    0 <= i < contacts.len() && contacts[i] is Some
}

/// The priority of the field met at contact `i`.
pub open spec fn priority_at(contacts: Seq<Option<GravityField>>, i: int) -> u8 {
    contacts[i]->0.priority
}

/// No contact is with a gravity field.
pub open spec fn touches_no_field(contacts: Seq<Option<GravityField>>) -> bool {
    forall|j: int| 0 <= j < contacts.len() ==> contacts[j] is None
}

/// Contact `i` is the field of influence: a field whose priority no other
/// touched field exceeds, and the first such one in contact order.
pub open spec fn is_field_of_influence(contacts: Seq<Option<GravityField>>, i: int) -> bool {
    &&& touches_field(contacts, i)
    &&& forall|j: int| #[trigger]
        touches_field(contacts, j) ==> priority_at(contacts, j) <= priority_at(contacts, i)
    &&& forall|j: int|
        0 <= j < i && #[trigger] touches_field(contacts, j) ==> priority_at(contacts, j)
            < priority_at(contacts, i)
}

/// Picks, among the contacts of a body, the gravity field that governs it.
///
/// `contacts[k]` is the field met at the body's `k`-th contact, or `None`
/// when that contact is not with a gravity field. Contacts are scanned in
/// order and a later field takes over only with a strictly higher priority,
/// so the result is the first field of the highest priority, or `None` when
/// no contact is with a field (the body then keeps its gravity direction).
pub fn select_field_of_influence(contacts: &Vec<Option<GravityField>>) -> (chosen: Option<usize>)
    ensures
        chosen is None <==> touches_no_field(contacts@),
        chosen matches Some(i) ==> is_field_of_influence(contacts@, i as int),
{
    let mut chosen: Option<usize> = None;
    let mut best: u8 = 0;
    let n = contacts.len();
    for k in 0..n
        invariant
            n == contacts@.len(),
            chosen is None ==> forall|j: int| 0 <= j < k ==> contacts@[j] is None,
            chosen matches Some(i) ==> {
                &&& i < k
                &&& touches_field(contacts@, i as int)
                &&& best == priority_at(contacts@, i as int)
                &&& forall|j: int|
                    0 <= j < k && #[trigger] touches_field(contacts@, j) ==> priority_at(
                        contacts@,
                        j,
                    ) <= best
                &&& forall|j: int|
                    0 <= j < i && #[trigger] touches_field(contacts@, j) ==> priority_at(
                        contacts@,
                        j,
                    ) < best
            },
    {
        match &contacts[k] {
            Some(field) => {
                let take = match chosen {
                    None => true,
                    Some(_) => best < field.priority,
                };
                if take {
                    chosen = Some(k);
                    best = field.priority;
                }
            },
            None => {},
        }
    }
    chosen
}

/// At most one contact is the field of influence.
pub proof fn lemma_field_of_influence_unique(
    contacts: Seq<Option<GravityField>>,
    i: int,
    j: int,
)
    requires
        is_field_of_influence(contacts, i),
        is_field_of_influence(contacts, j),
    ensures
        i == j,
{
    assert(touches_field(contacts, i));
    assert(touches_field(contacts, j));
}

/// Touching one more field: it takes over when its priority is strictly
/// higher than that of the current field of influence (or when there was
/// none); otherwise the current field stays in charge. A contact that is not
/// with a field changes nothing.
pub proof fn lemma_field_of_influence_extend(
    contacts: Seq<Option<GravityField>>,
    next: Option<GravityField>,
    i: int,
)
    requires
        is_field_of_influence(contacts, i),
    ensures
        next matches Some(f) && priority_at(contacts, i) < f.priority
            ==> is_field_of_influence(contacts.push(next), contacts.len() as int),
        !(next matches Some(f) && priority_at(contacts, i) < f.priority)
            ==> is_field_of_influence(contacts.push(next), i),
{
    let ext = contacts.push(next);
    assert forall|j: int| 0 <= j < contacts.len() implies ext[j] == contacts[j] by {}
    assert forall|j: int| #[trigger] touches_field(ext, j) && j < contacts.len() implies touches_field(
        contacts,
        j,
    ) && priority_at(ext, j) == priority_at(contacts, j) by {}
}

/// The first field touched by a body that touched none before governs it.
pub proof fn lemma_field_of_influence_first(
    contacts: Seq<Option<GravityField>>,
    next: GravityField,
)
    requires
        touches_no_field(contacts),
    ensures
        is_field_of_influence(contacts.push(Some(next)), contacts.len() as int),
{
    let ext = contacts.push(Some(next));
    assert forall|j: int| #[trigger] touches_field(ext, j) implies j == contacts.len() by {
        if j < contacts.len() {
            assert(ext[j] == contacts[j]);
        }
    }
}

} // verus!
