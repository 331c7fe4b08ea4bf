use vstd::prelude::*;

use crate::layout::ResourceFile;
use crate::request::{Reply, Request};

verus! {

/// How far a save has come.
#[derive(Debug, PartialEq, Eq)]
pub enum SaveStage {
    Locating,
    WritingContent { dir: String },
    WritingMeta { dir: String },
    Finished,
}

/// A save in progress: the two texts to store and the stage reached.
#[derive(Debug, PartialEq, Eq)]
pub struct SaveResource {
    pub content: String,
    pub meta: String,
    pub stage: SaveStage,
}

/// What a save does next: perform a request, or end with its result.
#[derive(Debug, PartialEq, Eq)]
pub enum SaveStep {
    Perform(Request),
    Finish(Result<(), String>),
}

/// Begins saving `content` and `meta` as the resource of `resource_type`.
/// The first request looks up the resource directory.
pub fn save_resource(resource_type: String, content: String, meta: String) -> (r: (
    SaveResource,
    Request,
))
    ensures
        r.0 == (SaveResource { content, meta, stage: SaveStage::Locating }),
        r.1 == (Request::Locate { resource_type }),
{
    (SaveResource { content, meta, stage: SaveStage::Locating }, Request::Locate { resource_type })
}

impl SaveResource {
    /// The reply answers the request that the save made last.
    pub open spec fn accepts(&self, reply: Reply) -> bool {
        match self.stage {
            SaveStage::Locating => reply is Located,
            SaveStage::WritingContent { .. } => reply is Written,
            SaveStage::WritingMeta { .. } => reply is Written,
            SaveStage::Finished => false,
        }
    }

    pub open spec fn with_stage(self, stage: SaveStage) -> SaveResource {
        SaveResource { content: self.content, meta: self.meta, stage }
    }

    /// The content goes to its file first, then the metadata to its own; the
    /// first error ends the save with that error's message. Replies that
    /// `accepts` refuses never reach `step`, so what this says of them is of no
    /// consequence.
    pub open spec fn next_spec(self, reply: Reply) -> (SaveResource, SaveStep) {
        match reply {
            Reply::Located(Err(e)) => (self.with_stage(SaveStage::Finished), SaveStep::Finish(Err(e))),
            Reply::Written(Err(e)) => (self.with_stage(SaveStage::Finished), SaveStep::Finish(Err(e))),
            Reply::ReadText(Err(e)) => (self.with_stage(SaveStage::Finished), SaveStep::Finish(Err(e))),
            Reply::Located(Ok(dir)) => (
                self.with_stage(SaveStage::WritingContent { dir }),
                SaveStep::Perform(
                    Request::Write { dir, file: ResourceFile::Content, text: self.content },
                ),
            ),
            _ => match self.stage {
                SaveStage::WritingContent { dir } => (
                    self.with_stage(SaveStage::WritingMeta { dir }),
                    SaveStep::Perform(
                        Request::Write { dir, file: ResourceFile::Meta, text: self.meta },
                    ),
                ),
                _ => (self.with_stage(SaveStage::Finished), SaveStep::Finish(Ok(()))),
            },
        }
    }

    /// Takes the reply to the last request and says what comes next.
    pub fn step(self, reply: Reply) -> (r: (SaveResource, SaveStep))
        requires
            self.accepts(reply),
        ensures
            r == self.next_spec(reply),
    {
        let SaveResource { content, meta, stage } = self;
        match reply {
            Reply::Located(Err(e)) | Reply::Written(Err(e)) | Reply::ReadText(Err(e)) => {
                (SaveResource { content, meta, stage: SaveStage::Finished }, SaveStep::Finish(Err(e)))
            },
            Reply::Located(Ok(dir)) => {
                let text = content.clone();
                let request = Request::Write { dir: dir.clone(), file: ResourceFile::Content, text };
                (
                    SaveResource { content, meta, stage: SaveStage::WritingContent { dir } },
                    SaveStep::Perform(request),
                )
            },
            _ => match stage {
                SaveStage::WritingContent { dir } => {
                    let text = meta.clone();
                    let request = Request::Write {
                        dir: dir.clone(),
                        file: ResourceFile::Meta,
                        text,
                    };
                    (
                        SaveResource { content, meta, stage: SaveStage::WritingMeta { dir } },
                        SaveStep::Perform(request),
                    )
                },
                _ => (
                    SaveResource { content, meta, stage: SaveStage::Finished },
                    SaveStep::Finish(Ok(())),
                ),
            },
        }
    }
}

} // verus!
