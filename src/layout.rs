use vstd::prelude::*;

verus! {

/// One of the two files that make up a stored resource.
#[derive(Clone, Copy, Debug, PartialEq, Eq, Structural)]
pub enum ResourceFile {
    Content,
    Meta,
}

impl ResourceFile {
    /// The file's name inside the resource directory.
    pub open spec fn name_spec(self) -> Seq<char> {
        match self {
            ResourceFile::Content => "content.json"@,
            ResourceFile::Meta => "meta.json"@,
        }
    }

    pub fn name(&self) -> (r: &'static str)
        ensures
            r@ == self.name_spec(),
    {
        match self {
            ResourceFile::Content => "content.json",
            ResourceFile::Meta => "meta.json",
        }
    }
}

/// The content and the metadata of a resource never share a file.
pub proof fn lemma_files_distinct()
    ensures
        ResourceFile::Content.name_spec() != ResourceFile::Meta.name_spec(),
{
    reveal_strlit("content.json");
    reveal_strlit("meta.json");
    assert(ResourceFile::Content.name_spec().len() != ResourceFile::Meta.name_spec().len());
}

} // verus!
