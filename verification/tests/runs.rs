use config_store::error::{Action, StoreError};
use config_store::load::LoadStep;
use config_store::save::SaveStep;
use config_store::store::{load_config_templates, save_config_templates};
use std::collections::{BTreeMap, BTreeSet};
use std::path::Path;

/// A disk held in memory: directories, files with their text, and the
/// paths at which it refuses to create or write.
#[derive(Clone, Debug, PartialEq, Eq)]
struct Disk {
    dirs: BTreeSet<String>,
    files: BTreeMap<String, String>,
    denied: BTreeSet<String>,
}

impl Disk {
    fn new(dirs: &[&str]) -> Disk {
        let mut disk = Disk {
            dirs: BTreeSet::new(),
            files: BTreeMap::new(),
            denied: BTreeSet::new(),
        };
        for dir in dirs {
            disk.create_dir_all(dir).unwrap();
        }
        disk
    }

    fn found(&self, path: &str) -> bool {
        self.dirs.contains(path) || self.files.contains_key(path)
    }

    fn create_dir_all(&mut self, path: &str) -> Result<(), String> {
        if self.denied.contains(path) {
            return Err("Permission denied (os error 13)".to_string());
        }
        let mut at = Some(Path::new(path));
        while let Some(p) = at {
            let text = p.to_str().unwrap();
            if self.files.contains_key(text) {
                return Err("File exists (os error 17)".to_string());
            }
            if !text.is_empty() {
                self.dirs.insert(text.to_string());
            }
            at = p.parent();
        }
        Ok(())
    }

    fn write(&mut self, path: &str, content: &str) -> Result<(), String> {
        if self.denied.contains(path) {
            return Err("Permission denied (os error 13)".to_string());
        }
        if self.dirs.contains(path) {
            return Err("Is a directory (os error 21)".to_string());
        }
        let inside = Path::new(path).parent().and_then(|p| p.to_str()).unwrap_or("");
        if !self.dirs.contains(inside) {
            return Err("No such file or directory (os error 2)".to_string());
        }
        self.files.insert(path.to_string(), content.to_string());
        Ok(())
    }

    fn read_to_string(&self, path: &str) -> Result<String, String> {
        match self.files.get(path) {
            Some(text) => Ok(text.clone()),
            None => Err("Is a directory (os error 21)".to_string()),
        }
    }

    fn save(&mut self, cwd: &str, exe: Option<&str>, content: &str) -> Result<(), StoreError> {
        let mut step = save_config_templates(
            Ok(cwd.to_string()),
            exe.map(|e| e.to_string()),
            content.to_string(),
        );
        loop {
            step = match step {
                SaveStep::Probe(p) => {
                    let found = self.found(p.path());
                    p.answer(found)
                }
                SaveStep::Create(c) => {
                    let reply = self.create_dir_all(c.path());
                    c.answer(reply)
                }
                SaveStep::Write(w) => {
                    let reply = self.write(w.path(), w.content());
                    w.answer(reply)
                }
                SaveStep::Done(outcome) => return outcome,
            };
        }
    }

    fn load(&self, cwd: &str, exe: Option<&str>) -> Result<String, StoreError> {
        let mut step = load_config_templates(Ok(cwd.to_string()), exe.map(|e| e.to_string()));
        loop {
            step = match step {
                LoadStep::Probe(p) => {
                    let found = self.found(p.path());
                    p.answer(found)
                }
                LoadStep::Read(r) => {
                    let reply = self.read_to_string(r.path());
                    r.answer(reply)
                }
                LoadStep::Done(outcome) => return outcome,
            };
        }
    }
}

#[test]
fn load_after_save_returns_the_content() {
    let mut disk = Disk::new(&["/home/user/project/src"]);
    let content = "{\"templates\":[{\"name\":\"a\"}]}";
    assert_eq!(disk.save("/home/user/project", None, content), Ok(()));
    assert_eq!(disk.load("/home/user/project", None), Ok(content.to_string()));
    assert_eq!(
        disk.files.get("/home/user/project/src/data/config-templates.json"),
        Some(&content.to_string())
    );
}

#[test]
fn round_trip_keeps_every_byte() {
    let mut disk = Disk::new(&["/home/user/project/src/data"]);
    let content = "  {\"t\u{e9}mplates\":\t[\"\\u0000\", \"\u{1f600}\"]}\r\n\n";
    assert_eq!(disk.save("/home/user/project", None, content), Ok(()));
    assert_eq!(disk.load("/home/user/project", None), Ok(content.to_string()));
}

#[test]
fn second_save_overwrites_the_first() {
    let mut disk = Disk::new(&["/home/user/project/src/data"]);
    assert_eq!(
        disk.save("/home/user/project", None, "a much longer first document"),
        Ok(())
    );
    assert_eq!(disk.save("/home/user/project", None, "short"), Ok(()));
    assert_eq!(disk.load("/home/user/project", None), Ok("short".to_string()));
    assert_eq!(disk.files.len(), 1);
}

#[test]
fn load_on_empty_disk_returns_empty_templates() {
    let disk = Disk::new(&["/home/user/project"]);
    assert_eq!(
        disk.load("/home/user/project", Some("/opt/editor/bin/editor")),
        Ok("{\"templates\":[]}".to_string())
    );
}

#[test]
fn save_creates_the_missing_directory() {
    let mut disk = Disk::new(&["/home/user/project/src"]);
    assert!(!disk.found("/home/user/project/src/data"));
    assert_eq!(disk.save("/home/user/project", None, "doc"), Ok(()));
    assert!(disk.dirs.contains("/home/user/project/src/data"));
}

#[test]
fn save_keeps_an_existing_directory() {
    let mut disk = Disk::new(&["/home/user/project/src/data"]);
    disk.write("/home/user/project/src/data/other.txt", "other").unwrap();
    assert_eq!(disk.save("/home/user/project", None, "doc"), Ok(()));
    assert!(disk.dirs.contains("/home/user/project/src/data"));
    assert_eq!(
        disk.files.get("/home/user/project/src/data/other.txt"),
        Some(&"other".to_string())
    );
}

#[test]
fn directory_exists_even_when_the_write_fails() {
    let mut disk = Disk::new(&["/home/user/project/src"]);
    disk.denied
        .insert("/home/user/project/src/data/config-templates.json".to_string());
    assert_eq!(
        disk.save("/home/user/project", None, "doc"),
        Err(StoreError::Io {
            action: Action::WriteFile,
            path: "/home/user/project/src/data/config-templates.json".to_string(),
            cause: "Permission denied (os error 13)".to_string(),
        })
    );
    assert!(disk.dirs.contains("/home/user/project/src/data"));
    assert!(disk.files.is_empty());
}

#[test]
fn save_fails_without_any_candidate_and_changes_nothing() {
    let mut disk = Disk::new(&["/home/user/outer/project"]);
    let before = disk.clone();
    assert_eq!(
        disk.save("/home/user/outer/project", Some("/opt/editor/bin/editor"), "doc"),
        Err(StoreError::Resolution)
    );
    assert_eq!(disk, before);
}

#[test]
fn save_from_nested_directory_uses_the_project_root() {
    let mut disk = Disk::new(&["/home/user/project/src-tauri", "/home/user/project/src"]);
    assert_eq!(disk.save("/home/user/project/src-tauri", None, "doc"), Ok(()));
    assert_eq!(
        disk.files.get("/home/user/project/src/data/config-templates.json"),
        Some(&"doc".to_string())
    );
    assert!(!disk.found("/home/user/project/src-tauri/src"));
    assert_eq!(
        disk.load("/home/user/project/src-tauri", None),
        Ok("doc".to_string())
    );
}

#[test]
fn save_falls_back_to_the_executable() {
    let mut disk = Disk::new(&["/work/deep/down", "/opt/editor/src", "/opt/editor/bin"]);
    assert_eq!(
        disk.save("/work/deep/down", Some("/opt/editor/bin/editor"), "doc"),
        Ok(())
    );
    assert_eq!(
        disk.files.get("/opt/editor/src/data/config-templates.json"),
        Some(&"doc".to_string())
    );
    assert_eq!(
        disk.load("/work/deep/down", Some("/opt/editor/bin/editor")),
        Ok("doc".to_string())
    );
}

#[test]
fn save_prefers_an_earlier_candidate_to_be_created_over_a_later_one_that_exists() {
    let mut disk = Disk::new(&["/home/user/project/src-tauri/src", "/home/user/project/src/data"]);
    assert_eq!(disk.save("/home/user/project/src-tauri", None, "doc"), Ok(()));
    assert_eq!(
        disk.files.get("/home/user/project/src-tauri/src/data/config-templates.json"),
        Some(&"doc".to_string())
    );
    assert!(!disk.found("/home/user/project/src/data/config-templates.json"));
}

#[test]
fn load_prefers_the_first_candidate_that_holds_a_file() {
    let mut disk = Disk::new(&[
        "/home/user/project/src-tauri/src/data",
        "/home/user/project/src/data",
    ]);
    disk.write("/home/user/project/src/data/config-templates.json", "outer").unwrap();
    assert_eq!(
        disk.load("/home/user/project/src-tauri", None),
        Ok("outer".to_string())
    );
    disk.write("/home/user/project/src-tauri/src/data/config-templates.json", "inner")
        .unwrap();
    assert_eq!(
        disk.load("/home/user/project/src-tauri", None),
        Ok("inner".to_string())
    );
}

#[test]
fn load_fails_on_a_document_that_cannot_be_read() {
    let disk = Disk::new(&[
        "/home/user/project/src/data/config-templates.json",
        "/home/user/src/data",
    ]);
    assert_eq!(
        disk.load("/home/user/project", None),
        Err(StoreError::Io {
            action: Action::ReadFile,
            path: "/home/user/project/src/data/config-templates.json".to_string(),
            cause: "Is a directory (os error 21)".to_string(),
        })
    );
}

#[test]
fn save_fails_where_the_directory_cannot_be_created() {
    let mut disk = Disk::new(&["/home/user/project/src", "/home/user/src/data"]);
    disk.denied.insert("/home/user/project/src/data".to_string());
    let before = disk.clone();
    assert_eq!(
        disk.save("/home/user/project", None, "doc"),
        Err(StoreError::Io {
            action: Action::CreateDir,
            path: "/home/user/project/src/data".to_string(),
            cause: "Permission denied (os error 13)".to_string(),
        })
    );
    assert_eq!(disk, before);
}

#[test]
fn candidates_never_spell_a_document_like_a_directory() {
    let dirs = config_store::paths::candidate_dirs(
        "/home/user/project/src-tauri",
        Some("/opt/editor/bin/editor"),
    );
    let files = config_store::paths::document_paths(&dirs);
    for (j, file) in files.iter().enumerate() {
        for (k, dir) in dirs.iter().enumerate() {
            assert_ne!(file, dir);
            if files[k] == *file {
                assert_eq!(dirs[j], *dir);
            }
        }
    }
}
