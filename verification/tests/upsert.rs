use std::collections::HashMap;
use vkdoc::{plan_upsert, Meta, Observed, Page, UpsertError, Vkdoc};

/// An in-memory documentation tree: content artifacts and metadata records,
/// each keyed by the file path the library computes for it.
struct MemTree {
    vkdoc: Vkdoc,
    contents: HashMap<String, String>,
    metas: HashMap<String, Meta>,
}

impl MemTree {
    fn new(root: &str) -> MemTree {
        MemTree {
            vkdoc: Vkdoc::new(root.to_string()),
            contents: HashMap::new(),
            metas: HashMap::new(),
        }
    }

    /// Observe, plan, and perform the planned writes, as a real store would.
    fn upsert(&mut self, path: &str, page: Page) -> Result<bool, UpsertError> {
        let loc = self.vkdoc.locate(path)?;
        assert!(!loc.segments.is_empty());
        let ancestors_have_meta: Vec<bool> = loc
            .ancestor_meta_paths
            .iter()
            .map(|p| self.metas.contains_key(p))
            .collect();
        assert_eq!(ancestors_have_meta.len(), loc.segments.len() - 1);
        let obs = Observed {
            ancestors_have_meta,
            content: self.contents.get(&loc.content_path).cloned(),
            meta: self.metas.get(&loc.meta_path).cloned(),
        };
        let plan = plan_upsert(&loc, page, obs)?;
        for (i, create) in plan.section_creates.iter().enumerate() {
            if let Some(m) = create {
                self.metas
                    .insert(loc.ancestor_meta_paths[i].clone(), m.clone());
            }
        }
        if let Some(content) = plan.content_write {
            self.contents.insert(loc.content_path.clone(), content);
        }
        if plan.write_record {
            self.metas.insert(loc.meta_path.clone(), plan.record);
        }
        Ok(plan.changed)
    }
}

#[test]
fn basic_upsert_content() {
    let mut tree = MemTree::new("vkdoc");
    let content = "content".to_string();
    let page = Page::new()
        .with_title("test".to_string())
        .with_content(content.clone());

    assert_eq!(tree.upsert("test", page).unwrap(), true);

    let content_path = "vkdoc/test/test.md".to_string();
    assert_eq!(tree.contents.get(&content_path).unwrap(), &content);

    let meta_path = "vkdoc/test/test.meta.json".to_string();
    let real_meta = tree.metas.get(&meta_path).unwrap().clone();
    assert_eq!(real_meta.title, "test");
    assert_eq!(real_meta.meta_title, "test");
    assert_eq!(real_meta.section_title, "test");
    assert_eq!(real_meta.short_description, "");
    assert_eq!(real_meta.page_description, "");

    assert_eq!(
        tree.upsert("test", Page::new().with_content(content.clone()))
            .unwrap(),
        false
    );
    assert_eq!(tree.contents.get(&content_path).unwrap(), &content);

    let content = "new content".to_string();
    assert_eq!(
        tree.upsert("test", Page::new().with_content(content.clone()))
            .unwrap(),
        true
    );
    assert_eq!(tree.contents.get(&content_path).unwrap(), &content);
}

#[test]
fn basic_upsert_meta() {
    let mut tree = MemTree::new("vkdoc");
    let page = Page::new().with_title("test".to_string());

    assert_eq!(tree.upsert("test", page).unwrap(), true);

    let meta_path = "vkdoc/test/test.meta.json".to_string();
    assert_eq!(tree.metas.get(&meta_path).unwrap().title, "test");

    let page = Page::new().with_title("test".to_string());
    assert_eq!(tree.upsert("test", page).unwrap(), false);

    let page = Page::new().with_title("test1".to_string());
    assert_eq!(tree.upsert("test", page).unwrap(), true);

    assert_eq!(tree.metas.get(&meta_path).unwrap().title, "test1");
}

#[test]
fn basic_upsert_with_sections() {
    let mut tree = MemTree::new("vkdoc");
    let page = Page::new().with_title("test".to_string());

    assert_eq!(tree.upsert("section/test", page).unwrap(), true);

    assert!(tree
        .metas
        .contains_key(&"vkdoc/section/test/test.meta.json".to_string()));
    assert!(tree
        .metas
        .contains_key(&"vkdoc/section/section.meta.json".to_string()));
}

#[test]
fn upsert_is_idempotent() {
    let mut tree = MemTree::new("root");
    let page = || {
        Page::new()
            .with_title("Title".to_string())
            .with_short_description("short".to_string())
            .with_weight(7)
            .with_content("body text".to_string())
    };

    assert_eq!(tree.upsert("a/b", page()).unwrap(), true);
    let contents_after_first = tree.contents.clone();
    let metas_after_first = tree.metas.clone();

    assert_eq!(tree.upsert("a/b", page()).unwrap(), false);
    assert_eq!(tree.contents, contents_after_first);
    assert_eq!(tree.metas, metas_after_first);
}

#[test]
fn creation_defaults() {
    let mut tree = MemTree::new("root");
    let page = Page::new().with_title("X".to_string());

    assert_eq!(tree.upsert("x", page).unwrap(), true);

    let m = tree.metas.get("root/x/x.meta.json").unwrap();
    assert_eq!(m.title, "X");
    assert_eq!(m.meta_title, "X");
    assert_eq!(m.section_title, "X");
    assert_eq!(m.short_description, "");
    assert_eq!(m.page_description, "");
    assert_eq!(m.meta_description, "");
    assert_eq!(m.weight, 1);
    assert!(!m.uuid.is_empty());
    assert_eq!(m.uuid.chars().count(), 36);
}

#[test]
fn short_description_cascades_at_creation() {
    let mut tree = MemTree::new("root");
    let page = Page::new()
        .with_title("X".to_string())
        .with_short_description("summary".to_string());

    assert_eq!(tree.upsert("x", page).unwrap(), true);

    let m = tree.metas.get("root/x/x.meta.json").unwrap();
    assert_eq!(m.short_description, "summary");
    assert_eq!(m.page_description, "summary");
    assert_eq!(m.meta_description, "summary");
}

#[test]
fn missing_title_on_creation_fails() {
    let mut tree = MemTree::new("root");
    let page = Page::new().with_content("hi".to_string());

    let r = tree.upsert("x", page);
    assert_eq!(r, Err(UpsertError::MissingRequiredField));
    assert!(tree.contents.is_empty());
    assert!(tree.metas.is_empty());
}

#[test]
fn partial_merge_preserves_untouched_fields() {
    let mut tree = MemTree::new("root");
    let page = Page::new().with_title("A".to_string()).with_weight(5);
    assert_eq!(tree.upsert("x", page).unwrap(), true);

    let page = Page::new().with_title("B".to_string());
    assert_eq!(tree.upsert("x", page).unwrap(), true);
    let m = tree.metas.get("root/x/x.meta.json").unwrap();
    assert_eq!(m.title, "B");
    assert_eq!(m.weight, 5);

    let page = Page::new().with_title("B".to_string());
    assert_eq!(tree.upsert("x", page).unwrap(), false);
}

#[test]
fn content_noop_on_unchanged_bytes() {
    let mut tree = MemTree::new("root");
    let page = Page::new()
        .with_title("X".to_string())
        .with_content("hello".to_string());
    assert_eq!(tree.upsert("x", page).unwrap(), true);

    let page = Page::new().with_content("hello".to_string());
    assert_eq!(tree.upsert("x", page).unwrap(), false);
    assert_eq!(tree.contents.get("root/x/x.md").unwrap(), "hello");

    let page = Page::new().with_content("world".to_string());
    assert_eq!(tree.upsert("x", page).unwrap(), true);
    assert_eq!(tree.contents.get("root/x/x.md").unwrap(), "world");
}

#[test]
fn omitting_content_never_deletes_it() {
    let mut tree = MemTree::new("root");
    let page = Page::new()
        .with_title("X".to_string())
        .with_content("hello".to_string());
    assert_eq!(tree.upsert("x", page).unwrap(), true);

    let page = Page::new().with_title("Y".to_string());
    assert_eq!(tree.upsert("x", page).unwrap(), true);
    assert_eq!(tree.contents.get("root/x/x.md").unwrap(), "hello");
}

#[test]
fn section_bootstrap_defaults_and_gap_filling() {
    let mut tree = MemTree::new("root");
    let page = Page::new().with_title("Leaf".to_string());
    assert_eq!(tree.upsert("sec/leaf", page).unwrap(), true);

    let sec = tree.metas.get("root/sec/sec.meta.json").unwrap().clone();
    assert_eq!(sec.title, "sec");
    assert_eq!(sec.meta_title, "sec");
    assert_eq!(sec.section_title, "sec");
    assert_eq!(sec.short_description, "");
    assert_eq!(sec.weight, 1);
    let leaf = tree.metas.get("root/sec/leaf/leaf.meta.json").unwrap();
    assert_eq!(leaf.title, "Leaf");

    let page = Page::new().with_title("Other".to_string());
    assert_eq!(tree.upsert("sec/other", page).unwrap(), true);
    let sec_after = tree.metas.get("root/sec/sec.meta.json").unwrap();
    assert_eq!(sec_after, &sec);
}

#[test]
fn identity_assigned_once_and_immutable() {
    let mut tree = MemTree::new("root");
    let page = Page::new().with_title("A".to_string());
    assert_eq!(tree.upsert("x", page).unwrap(), true);
    let identity = tree.metas.get("root/x/x.meta.json").unwrap().uuid.clone();
    assert_eq!(identity.chars().count(), 36);

    let page = Page::new()
        .with_title("B".to_string())
        .with_meta_title("MB".to_string())
        .with_section_title("SB".to_string())
        .with_short_description("sd".to_string())
        .with_page_description("pd".to_string())
        .with_weight(9)
        .with_content("body".to_string());
    assert_eq!(tree.upsert("x", page).unwrap(), true);
    assert_eq!(tree.metas.get("root/x/x.meta.json").unwrap().uuid, identity);

    let page = Page::new().with_title("C".to_string());
    assert_eq!(tree.upsert("x", page).unwrap(), true);
    assert_eq!(tree.metas.get("root/x/x.meta.json").unwrap().uuid, identity);
}

#[test]
fn identities_are_distinct_per_entry() {
    let mut tree = MemTree::new("root");
    assert_eq!(
        tree.upsert("a", Page::new().with_title("A".to_string()))
            .unwrap(),
        true
    );
    assert_eq!(
        tree.upsert("b", Page::new().with_title("B".to_string()))
            .unwrap(),
        true
    );
    let ua = &tree.metas.get("root/a/a.meta.json").unwrap().uuid;
    let ub = &tree.metas.get("root/b/b.meta.json").unwrap().uuid;
    assert_ne!(ua, ub);
}

#[test]
fn absolute_path_is_rejected() {
    let mut tree = MemTree::new("root");
    let page = Page::new().with_title("X".to_string());
    assert_eq!(tree.upsert("/etc/x", page), Err(UpsertError::InvalidPath));
    assert!(tree.metas.is_empty());
}

#[test]
fn empty_path_is_rejected() {
    let mut tree = MemTree::new("root");
    let page = Page::new().with_title("X".to_string());
    assert_eq!(tree.upsert("", page), Err(UpsertError::InvalidPath));
    let page = Page::new().with_title("X".to_string());
    assert_eq!(tree.upsert("///", page), Err(UpsertError::InvalidPath));
}

#[test]
fn dot_segments_are_rejected() {
    let mut tree = MemTree::new("root");
    let page = Page::new().with_title("X".to_string());
    assert_eq!(tree.upsert("a/../b", page), Err(UpsertError::InvalidPath));
    let page = Page::new().with_title("X".to_string());
    assert_eq!(tree.upsert("./a", page), Err(UpsertError::InvalidPath));
}

#[test]
fn redundant_separators_collapse() {
    let mut tree = MemTree::new("root");
    let page = Page::new().with_title("X".to_string());
    assert_eq!(tree.upsert("a//b/", page).unwrap(), true);
    assert!(tree.metas.contains_key("root/a/b/b.meta.json"));
    assert!(tree.metas.contains_key("root/a/a.meta.json"));
}

#[test]
fn locate_computes_the_layout() {
    let vkdoc = Vkdoc::new("root".to_string());
    let loc = vkdoc.locate("a/b/c").unwrap();
    assert_eq!(loc.segments, vec!["a".to_string(), "b".to_string(), "c".to_string()]);
    assert_eq!(loc.entry_dir, "root/a/b/c");
    assert_eq!(loc.content_path, "root/a/b/c/c.md");
    assert_eq!(loc.meta_path, "root/a/b/c/c.meta.json");
    assert_eq!(
        loc.ancestor_meta_paths,
        vec![
            "root/a/a.meta.json".to_string(),
            "root/a/b/b.meta.json".to_string()
        ]
    );
}

#[test]
fn error_messages_name_the_cause() {
    assert!(!UpsertError::InvalidPath.message().is_empty());
    assert!(!UpsertError::MissingRequiredField.message().is_empty());
    assert!(UpsertError::Io("disk full".to_string())
        .message()
        .contains("disk full"));
    assert!(UpsertError::Parse("bad json".to_string())
        .message()
        .contains("bad json"));
    assert!(!UpsertError::NameConversion.message().is_empty());
}
