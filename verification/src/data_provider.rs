use vstd::prelude::*;

verus! {

/// The text of an optional string.
pub open spec fn text_view(o: Option<String>) -> Option<Seq<char>> {
    match o {
        Some(s) => Some(s@),
        None => None,
    }
}

/// What a pasteboard writer holds: one pasteboard type, identified by its
/// type string, and the text offered under that type.
#[derive(Debug, Clone, PartialEq, Eq)]
pub struct PlatformDataProvider {
    pasteboard_type: String,
    data: String,
}

impl PlatformDataProvider {
    /// The pasteboard type this provider writes.
    pub closed spec fn type_view(&self) -> Seq<char> {
        self.pasteboard_type@
    }

    /// The text this provider writes.
    pub closed spec fn data_view(&self) -> Seq<char> {
        self.data@
    }

    /// The types a writer built from this provider declares.
    pub open spec fn declared_types(&self) -> Seq<Seq<char>> {
        seq![self.type_view()]
    }

    /// The object written for pasteboard type `t`: the provider's text for
    /// its own type, nothing for any other.
    pub open spec fn object_answer(&self, t: Seq<char>) -> Option<Seq<char>> {
        if t == self.type_view() {
            Some(self.data_view())
        } else {
            None
        }
    }

    /// A provider of `data` under `pasteboard_type`.
    pub fn new(pasteboard_type: String, data: String) -> (r: Self)
        ensures
            r.type_view() == pasteboard_type@,
            r.data_view() == data@,
    {
        Self { pasteboard_type, data }
    }

    /// The types a writer built from this provider declares: exactly its one
    /// pasteboard type.
    pub fn writable_types(&self) -> (r: Vec<String>)
        ensures
            r@.map_values(|t: String| t@) == self.declared_types(),
            r@.len() == 1,
            r@[0]@ == self.type_view(),
    {
        let mut types: Vec<String> = Vec::new();
        types.push(self.pasteboard_type.clone());
        assert(types@.map_values(|t: String| t@) =~= self.declared_types());
        types
    }

    /// The object written for `pasteboard_type`: the provider's text when the
    /// type is the provider's own, nothing for any other type.
    pub fn object_for_type(&self, pasteboard_type: &String) -> (r: Option<String>)
        ensures
            text_view(r) == self.object_answer(pasteboard_type@),
            pasteboard_type@ == self.type_view() ==> (r matches Some(x) && x@ == self.data_view()),
            pasteboard_type@ != self.type_view() ==> r is None,
    {
        if *pasteboard_type == self.pasteboard_type {
            Some(self.data.clone())
        } else {
            None
        }
    }
}

/// A writer declares exactly one type, its provider's own, whatever that
/// type is.
pub proof fn lemma_declares_exactly_own_type(p: PlatformDataProvider)
    ensures
        p.declared_types().len() == 1,
        p.declared_types()[0] == p.type_view(),
        p.declared_types().contains(p.type_view()),
{
    assert(p.declared_types()[0] == p.type_view());
}

/// Every type a writer declares is answered with the provider's text.
pub proof fn lemma_declared_types_are_answered(p: PlatformDataProvider, i: int)
    requires
        0 <= i < p.declared_types().len(),
    ensures
        p.object_answer(p.declared_types()[i]) == Some(p.data_view()),
{
}

/// Any type other than the provider's own is answered with nothing, and the
/// provider's own type with exactly its text.
pub proof fn lemma_only_own_type_is_answered(p: PlatformDataProvider, t: Seq<char>)
    ensures
        t != p.type_view() ==> p.object_answer(t) is None,
        t == p.type_view() ==> p.object_answer(t) == Some(p.data_view()),
        text_view(None) is None,
        forall|x: String| #[trigger] text_view(Some(x)) == Some(x@),
{
}

} // verus!
