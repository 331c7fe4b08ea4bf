use vstd::prelude::*;

use crate::layout::ResourceFile;
use crate::request::{Reply, Request};

verus! {

/// How far a load has come.
#[derive(Debug, PartialEq, Eq)]
pub enum LoadStage {
    Locating,
    ReadingContent { dir: String },
    ReadingMeta { dir: String, content: String },
    Finished,
}

/// A load in progress.
#[derive(Debug, PartialEq, Eq)]
pub struct LoadResource {
    pub stage: LoadStage,
}

/// What a load does next: perform a request, or end with the content and the
/// metadata, in that order, or with an error.
#[derive(Debug, PartialEq, Eq)]
pub enum LoadStep {
    Perform(Request),
    Finish(Result<(String, String), String>),
}

/// Begins loading the resource of `resource_type`. The first request looks up
/// the resource directory.
pub fn load_resource(resource_type: String) -> (r: (LoadResource, Request))
    ensures
        r.0 == (LoadResource { stage: LoadStage::Locating }),
        r.1 == (Request::Locate { resource_type }),
{
    (LoadResource { stage: LoadStage::Locating }, Request::Locate { resource_type })
}

impl LoadResource {
    /// The reply answers the request that the load made last.
    pub open spec fn accepts(&self, reply: Reply) -> bool {
        match self.stage {
            LoadStage::Locating => reply is Located,
            LoadStage::ReadingContent { .. } => reply is ReadText,
            LoadStage::ReadingMeta { .. } => reply is ReadText,
            LoadStage::Finished => false,
        }
    }

    /// The content is read first, then the metadata; both must be read for
    /// the load to succeed, and the first error ends it with that error's
    /// message. Replies that `accepts` refuses never reach `step`, so what
    /// this says of them is of no consequence.
    pub open spec fn next_spec(self, reply: Reply) -> (LoadResource, LoadStep) {
        match reply {
            Reply::Located(Err(e)) => (LoadResource { stage: LoadStage::Finished }, LoadStep::Finish(Err(e))),
            Reply::Written(Err(e)) => (LoadResource { stage: LoadStage::Finished }, LoadStep::Finish(Err(e))),
            Reply::ReadText(Err(e)) => (LoadResource { stage: LoadStage::Finished }, LoadStep::Finish(Err(e))),
            Reply::Located(Ok(dir)) => (
                LoadResource { stage: LoadStage::ReadingContent { dir } },
                LoadStep::Perform(Request::Read { dir, file: ResourceFile::Content }),
            ),
            Reply::ReadText(Ok(text)) => match self.stage {
                LoadStage::ReadingContent { dir } => (
                    LoadResource { stage: LoadStage::ReadingMeta { dir, content: text } },
                    LoadStep::Perform(Request::Read { dir, file: ResourceFile::Meta }),
                ),
                LoadStage::ReadingMeta { dir, content } => (
                    LoadResource { stage: LoadStage::Finished },
                    LoadStep::Finish(Ok((content, text))),
                ),
                _ => (self, LoadStep::Finish(Err(text))),
            },
            Reply::Written(Ok(())) => (self, LoadStep::Finish(Ok((arbitrary(), arbitrary())))),
        }
    }

    /// Takes the reply to the last request and says what comes next.
    pub fn step(self, reply: Reply) -> (r: (LoadResource, LoadStep))
        requires
            self.accepts(reply),
        ensures
            r == self.next_spec(reply),
    {
        match reply {
            Reply::Located(Err(e)) | Reply::Written(Err(e)) | Reply::ReadText(Err(e)) => {
                (LoadResource { stage: LoadStage::Finished }, LoadStep::Finish(Err(e)))
            },
            Reply::Located(Ok(dir)) => {
                let request = Request::Read { dir: dir.clone(), file: ResourceFile::Content };
                (LoadResource { stage: LoadStage::ReadingContent { dir } }, LoadStep::Perform(request))
            },
            Reply::ReadText(Ok(text)) => match self.stage {
                LoadStage::ReadingContent { dir } => {
                    let request = Request::Read { dir: dir.clone(), file: ResourceFile::Meta };
                    (
                        LoadResource { stage: LoadStage::ReadingMeta { dir, content: text } },
                        LoadStep::Perform(request),
                    )
                },
                LoadStage::ReadingMeta { dir, content } => {
                    (LoadResource { stage: LoadStage::Finished }, LoadStep::Finish(Ok((content, text))))
                },
                _ => {
                    assert(false);
                    (LoadResource { stage: LoadStage::Finished }, LoadStep::Finish(Err(text)))
                },
            },
            Reply::Written(Ok(())) => {
                assert(false);
                (LoadResource { stage: LoadStage::Finished }, LoadStep::Finish(Err(String::new())))
            },
        }
    }
}

} // verus!
