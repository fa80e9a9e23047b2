//! Record types: a `User` resolved by the lookup operation, and a
//! `MetadataObject` describing a page (populated by external collaborators).

use vstd::prelude::*;
use vstd::string::StringExecFns;

use crate::decimal::dec_str;
use crate::decimal::dec_str_signed;
use crate::decimal::i32_to_string;
use crate::decimal::u64_to_string;

verus! {

/// A user record produced by a successful lookup. The `name` field is a view
/// over the caller's own input string, never an independent copy.
#[derive(Clone)]
pub struct User<'a> {
    pub name: &'a str,
    pub id: u64,
    pub avatar: String,
}

/// Per-page metadata. `url` is assumed unique within whatever corpus produces
/// these objects; `tags` is an unordered collection in which duplicates carry
/// no meaning, so equality treats it as a set.
#[derive(Clone)]
pub struct MetadataObject {
    pub url: String,
    pub title: String,
    pub rating: i32,
    pub tags: Vec<String>,
}

/// The one-line description of a user record.
pub open spec fn user_describe(u: User) -> Seq<char> {
    "User { name: "@ + u.name@ + ", id: "@ + dec_str(u.id as nat) + ", avatar: "@ + u.avatar@
        + " }"@
}

impl<'a> User<'a> {
    /// Renders the record for diagnostics, one field after the other.
    pub fn describe(&self) -> (r: String)
        ensures
            r@ == user_describe(*self),
    {
        let r = String::from_str("User { name: ").concat(self.name).concat(", id: ").concat(
            u64_to_string(self.id).as_str(),
        ).concat(", avatar: ").concat(self.avatar.as_str()).concat(" }");
        proof {
            assert(r@ =~= user_describe(*self));
        }
        r
    }
}

/// The rendering of the entries of a tag list: each tag between one leading
/// space and one trailing comma, in list order.
pub open spec fn tag_list_items(ts: Seq<String>) -> Seq<char>
    decreases ts.len(),
{
    if ts.len() == 0 {
        Seq::empty()
    } else {
        tag_list_items(ts.drop_last()) + " "@ + ts.last()@ + ","@
    }
}

/// The one-line description of a metadata object, its tag list bracketed.
pub open spec fn metadata_describe(m: MetadataObject) -> Seq<char> {
    "MetadataObject { url: "@ + m.url@ + ", title: "@ + m.title@ + ", rating: "@ + dec_str_signed(
        m.rating as int,
    ) + ", tags: "@ + "["@ + tag_list_items(m.tags@) + "]"@ + " }"@
}

/// Renders a tag list: every tag after a space and before a comma, the whole
/// list in brackets.
pub fn render_tags(ts: &Vec<String>) -> (r: String)
    ensures
        r@ == "["@ + tag_list_items(ts@) + "]"@,
{
    let mut s = String::from_str("[");
    let mut i: usize = 0;
    while i < ts.len()
        invariant
            0 <= i <= ts@.len(),
            s@ == "["@ + tag_list_items(ts@.take(i as int)),
        decreases ts@.len() - i,
    {
        s.append(" ");
        s.append(ts[i].as_str());
        s.append(",");
        proof {
            let prefix = ts@.take(i + 1);
            assert(prefix.drop_last() =~= ts@.take(i as int));
            assert(prefix.last() == ts@[i as int]);
            assert(s@ =~= "["@ + tag_list_items(ts@.take(i + 1)));
        }
        i = i + 1;
    }
    proof {
        assert(ts@.take(ts@.len() as int) =~= ts@);
    }
    let r = s.concat("]");
    proof {
        assert(r@ =~= "["@ + tag_list_items(ts@) + "]"@);
    }
    r
}

impl MetadataObject {
    /// Renders the object for diagnostics, its tags as an unordered list in
    /// whatever order the tag list holds them.
    pub fn describe(&self) -> (r: String)
        ensures
            r@ == metadata_describe(*self),
    {
        let tag_list = render_tags(&self.tags);
        let r = String::from_str("MetadataObject { url: ").concat(self.url.as_str()).concat(
            ", title: ",
        ).concat(self.title.as_str()).concat(", rating: ").concat(
            i32_to_string(self.rating).as_str(),
        ).concat(", tags: ").concat(tag_list.as_str()).concat(" }");
        proof {
            assert(r@ =~= metadata_describe(*self));
        }
        r
    }
}

/// The set of tag texts a tag list holds, with order and multiplicity erased.
pub open spec fn tag_view(ts: Seq<String>) -> Set<Seq<char>> {
    Set::new(|x: Seq<char>| exists|i: int| 0 <= i < ts.len() && ts[i]@ == x)
}

/// What equality of two metadata objects means: field-for-field equality,
/// with the tag lists compared as sets.
pub open spec fn metadata_eq(a: MetadataObject, b: MetadataObject) -> bool {
    &&& a.url@ == b.url@
    &&& a.title@ == b.title@
    &&& a.rating == b.rating
    &&& tag_view(a.tags@) == tag_view(b.tags@)
}

/// Whether some entry of `ts` holds the text `t`.
pub fn has_tag(ts: &Vec<String>, t: &String) -> (r: bool)
    ensures
        r == tag_view(ts@).contains(t@),
{
    let mut i: usize = 0;
    while i < ts.len()
        invariant
            0 <= i <= ts@.len(),
            forall|j: int| 0 <= j < i ==> ts@[j]@ != t@,
        decreases ts@.len() - i,
    {
        if ts[i].eq(t) {
            assert(tag_view(ts@).contains(t@)) by {
                assert(ts@[i as int]@ == t@);
            }
            return true;
        }
        i = i + 1;
    }
    assert(!tag_view(ts@).contains(t@));
    false
}

/// Whether every tag of `ts` also appears in `us`.
pub fn tags_subset(ts: &Vec<String>, us: &Vec<String>) -> (r: bool)
    ensures
        r == tag_view(ts@).subset_of(tag_view(us@)),
{
    let mut i: usize = 0;
    while i < ts.len()
        invariant
            0 <= i <= ts@.len(),
            forall|j: int| 0 <= j < i ==> tag_view(us@).contains(#[trigger] ts@[j]@),
        decreases ts@.len() - i,
    {
        if !has_tag(us, &ts[i]) {
            assert(tag_view(ts@).contains(ts@[i as int]@));
            return false;
        }
        i = i + 1;
    }
    assert forall|x: Seq<char>| tag_view(ts@).contains(x) implies tag_view(us@).contains(x) by {
        let j = choose|j: int| 0 <= j < ts@.len() && ts@[j]@ == x;
        assert(tag_view(us@).contains(ts@[j]@));
    }
    true
}

impl PartialEq for MetadataObject {
    /// Equality compares `url`, `title` and `rating` directly and the tag
    /// lists as sets: order and repetition of tags do not matter.
    fn eq(&self, other: &MetadataObject) -> (r: bool) {
        let tags_equal = tags_subset(&self.tags, &other.tags) && tags_subset(
            &other.tags,
            &self.tags,
        );
        proof {
            if tags_equal {
                assert(tag_view(self.tags@) =~= tag_view(other.tags@));
            }
        }
        self.url == other.url && self.title == other.title && self.rating == other.rating
            && tags_equal
    }
}

impl vstd::std_specs::cmp::PartialEqSpecImpl for MetadataObject {
    open spec fn obeys_eq_spec() -> bool {
        true
    }

    open spec fn eq_spec(&self, other: &MetadataObject) -> bool {
        metadata_eq(*self, *other)
    }
}

/// Reordering a tag list, or repeating entries of it, never distinguishes two
/// metadata objects: if the remaining fields agree and each list's tags all
/// occur in the other, the objects are equal.
pub proof fn lemma_eq_ignores_tag_order(a: MetadataObject, b: MetadataObject)
    requires
        a.url@ == b.url@,
        a.title@ == b.title@,
        a.rating == b.rating,
        forall|t: Seq<char>| tag_view(a.tags@).contains(t) <==> tag_view(b.tags@).contains(t),
    ensures
        metadata_eq(a, b),
{
    assert(tag_view(a.tags@) =~= tag_view(b.tags@));
}

} // verus!
