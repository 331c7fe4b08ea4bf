use std::collections::HashMap;

use resource_store::layout::ResourceFile;
use resource_store::load::{load_resource, LoadStep};
use resource_store::request::{Reply, Request};
use resource_store::save::{save_resource, SaveStep};

/// An in-memory stand-in for the filesystem and the directory lookup.
#[derive(Default)]
struct World {
    files: HashMap<(String, String), String>,
    locate_fails: bool,
    failing_write: Option<ResourceFile>,
    failing_read: Option<ResourceFile>,
    log: Vec<String>,
}

impl World {
    fn answer(&mut self, request: Request) -> Reply {
        match request {
            Request::Locate { resource_type } => {
                self.log.push(format!("locate {}", resource_type));
                if self.locate_fails {
                    Reply::Located(Err(format!("no directory for {}", resource_type)))
                } else {
                    Reply::Located(Ok(format!("store/{}", resource_type)))
                }
            }
            Request::Write { dir, file, text } => {
                self.log.push(format!("write {}/{}", dir, file.name()));
                if self.failing_write == Some(file) {
                    Reply::Written(Err("disk full".to_string()))
                } else {
                    self.files.insert((dir, file.name().to_string()), text);
                    Reply::Written(Ok(()))
                }
            }
            Request::Read { dir, file } => {
                self.log.push(format!("read {}/{}", dir, file.name()));
                if self.failing_read == Some(file) {
                    return Reply::ReadText(Err("permission denied".to_string()));
                }
                match self.files.get(&(dir, file.name().to_string())) {
                    Some(text) => Reply::ReadText(Ok(text.clone())),
                    None => Reply::ReadText(Err("file not found".to_string())),
                }
            }
        }
    }

    fn save(&mut self, resource_type: &str, content: &str, meta: &str) -> Result<(), String> {
        let (mut job, mut request) =
            save_resource(resource_type.to_string(), content.to_string(), meta.to_string());
        loop {
            let reply = self.answer(request);
            let (next, step) = job.step(reply);
            job = next;
            match step {
                SaveStep::Perform(r) => request = r,
                SaveStep::Finish(result) => return result,
            }
        }
    }

    fn load(&mut self, resource_type: &str) -> Result<(String, String), String> {
        let (mut job, mut request) = load_resource(resource_type.to_string());
        loop {
            let reply = self.answer(request);
            let (next, step) = job.step(reply);
            job = next;
            match step {
                LoadStep::Perform(r) => request = r,
                LoadStep::Finish(result) => return result,
            }
        }
    }

    fn file(&self, dir: &str, name: &str) -> Option<&String> {
        self.files.get(&(dir.to_string(), name.to_string()))
    }
}

#[test]
fn round_trip_returns_saved_texts() {
    let mut world = World::default();
    assert_eq!(world.save("notes", "body", "info"), Ok(()));
    assert_eq!(world.load("notes"), Ok(("body".to_string(), "info".to_string())));
}

#[test]
fn second_save_overwrites_first() {
    let mut world = World::default();
    assert_eq!(world.save("notes", "c1", "m1"), Ok(()));
    assert_eq!(world.save("notes", "c2", "m2"), Ok(()));
    assert_eq!(world.load("notes"), Ok(("c2".to_string(), "m2".to_string())));
    assert_eq!(world.files.len(), 2);
}

#[test]
fn load_of_unsaved_type_fails() {
    let mut world = World::default();
    assert_eq!(world.load("never"), Err("file not found".to_string()));
}

#[test]
fn distinct_types_do_not_interfere() {
    let mut world = World::default();
    assert_eq!(world.save("b", "cb", "mb"), Ok(()));
    assert_eq!(world.save("a", "ca", "ma"), Ok(()));
    assert_eq!(world.load("b"), Ok(("cb".to_string(), "mb".to_string())));
    assert_eq!(world.load("a"), Ok(("ca".to_string(), "ma".to_string())));
}

#[test]
fn arbitrary_text_survives_unchanged() {
    let cases = [
        ("", ""),
        ("not json {", "  spaced  \n"),
        ("nul\0inside", "ctrl\u{1}\u{7f}\r\t"),
        ("ünïcödé ✓", "{\"deep\": [1, 2, {\"x\": null}]}"),
    ];
    let mut world = World::default();
    for (content, meta) in cases {
        assert_eq!(world.save("t", content, meta), Ok(()));
        assert_eq!(world.load("t"), Ok((content.to_string(), meta.to_string())));
    }
}

#[test]
fn settings_example() {
    let mut world = World::default();
    assert_eq!(world.save("settings", "{\"x\":1}", "{\"v\":1}"), Ok(()));
    assert_eq!(
        world.load("settings"),
        Ok(("{\"x\":1}".to_string(), "{\"v\":1}".to_string()))
    );
    assert_eq!(world.file("store/settings", "content.json"), Some(&"{\"x\":1}".to_string()));
    assert_eq!(world.file("store/settings", "meta.json"), Some(&"{\"v\":1}".to_string()));
}

#[test]
fn file_names() {
    assert_eq!(ResourceFile::Content.name(), "content.json");
    assert_eq!(ResourceFile::Meta.name(), "meta.json");
}

#[test]
fn save_writes_content_then_meta() {
    let mut world = World::default();
    assert_eq!(world.save("kind", "c", "m"), Ok(()));
    assert_eq!(
        world.log,
        vec![
            "locate kind".to_string(),
            "write store/kind/content.json".to_string(),
            "write store/kind/meta.json".to_string(),
        ]
    );
}

#[test]
fn load_reads_content_then_meta() {
    let mut world = World::default();
    assert_eq!(world.save("kind", "c", "m"), Ok(()));
    world.log.clear();
    assert_eq!(world.load("kind"), Ok(("c".to_string(), "m".to_string())));
    assert_eq!(
        world.log,
        vec![
            "locate kind".to_string(),
            "read store/kind/content.json".to_string(),
            "read store/kind/meta.json".to_string(),
        ]
    );
}

#[test]
fn save_fails_when_directory_lookup_fails() {
    let mut world = World { locate_fails: true, ..World::default() };
    assert_eq!(world.save("x", "c", "m"), Err("no directory for x".to_string()));
    assert!(world.files.is_empty());
    assert_eq!(world.log, vec!["locate x".to_string()]);
}

#[test]
fn load_fails_when_directory_lookup_fails() {
    let mut world = World { locate_fails: true, ..World::default() };
    assert_eq!(world.load("x"), Err("no directory for x".to_string()));
    assert_eq!(world.log, vec!["locate x".to_string()]);
}

#[test]
fn failed_content_write_stops_save() {
    let mut world = World { failing_write: Some(ResourceFile::Content), ..World::default() };
    assert_eq!(world.save("x", "c", "m"), Err("disk full".to_string()));
    assert!(world.files.is_empty());
    assert_eq!(world.log.len(), 2);
}

#[test]
fn failed_meta_write_leaves_new_content() {
    let mut world = World::default();
    assert_eq!(world.save("x", "old", "old meta"), Ok(()));
    world.failing_write = Some(ResourceFile::Meta);
    assert_eq!(world.save("x", "new", "new meta"), Err("disk full".to_string()));
    assert_eq!(world.file("store/x", "content.json"), Some(&"new".to_string()));
    assert_eq!(world.file("store/x", "meta.json"), Some(&"old meta".to_string()));
}

#[test]
fn failed_meta_read_fails_load() {
    let mut world = World::default();
    assert_eq!(world.save("x", "c", "m"), Ok(()));
    world.failing_read = Some(ResourceFile::Meta);
    assert_eq!(world.load("x"), Err("permission denied".to_string()));
}

#[test]
fn load_with_content_but_no_meta_fails() {
    let mut world = World::default();
    world
        .files
        .insert(("store/x".to_string(), "content.json".to_string()), "c".to_string());
    assert_eq!(world.load("x"), Err("file not found".to_string()));
}

#[test]
fn step_after_lookup_asks_for_content_write() {
    let (job, request) = save_resource("t".to_string(), "c".to_string(), "m".to_string());
    assert_eq!(request, Request::Locate { resource_type: "t".to_string() });
    let (_, step) = job.step(Reply::Located(Ok("d".to_string())));
    assert_eq!(
        step,
        SaveStep::Perform(Request::Write {
            dir: "d".to_string(),
            file: ResourceFile::Content,
            text: "c".to_string(),
        })
    );
}
