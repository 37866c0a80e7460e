//! What the caller asks for: the tags an instance must carry.

use vstd::prelude::*;

verus! {

/// A required tag: a key and the value it must have.
#[derive(Debug)]
pub struct Tag {
    pub key: String,
    pub value: String,
}

impl View for Tag {
    type V = (Seq<char>, Seq<char>);

    open spec fn view(&self) -> (Seq<char>, Seq<char>) {
        (self.key@, self.value@)
    }
}

impl Clone for Tag {
    fn clone(&self) -> (copy: Self)
        ensures
            copy@ == self@,
    {
        Tag { key: self.key.clone(), value: self.value.clone() }
    }
}

/// The (key, value) pair of each tag in a sequence, in order.
pub open spec fn tag_views(tags: Seq<Tag>) -> Seq<(Seq<char>, Seq<char>)> {
    tags.map_values(|t: Tag| t@)
}

/// A request: the tags, in the order given. An instance answers the request
/// when it carries every one of them.
#[derive(Debug)]
pub struct Request {
    pub tags: Vec<Tag>,
}

impl View for Request {
    type V = Seq<(Seq<char>, Seq<char>)>;

    open spec fn view(&self) -> Seq<(Seq<char>, Seq<char>)> {
        tag_views(self.tags@)
    }
}

/// A copy of a vector of tags, pair for pair.
pub fn copy_tags(tags: &Vec<Tag>) -> (copy: Vec<Tag>)
    ensures
        tag_views(copy@) == tag_views(tags@),
{
    let mut copy: Vec<Tag> = Vec::new();
    let mut i: usize = 0;
    while i < tags.len()
        invariant
            i <= tags.len(),
            copy.len() == i,
            forall|j: int| 0 <= j < i ==> copy@[j]@ == tags@[j]@,
        decreases tags.len() - i,
    {
        copy.push(tags[i].clone());
        i = i + 1;
    }
    assert(tag_views(copy@) =~= tag_views(tags@));
    copy
}

} // verus!
