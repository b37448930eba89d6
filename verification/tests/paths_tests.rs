use yuralock_app::outcome::{crypto_success, integrity_result, toast_payload, Platform};
use yuralock_app::paths::{
    output_dir_from_parent, output_dir_step, parent_uri, picked_input_file, picked_or_empty,
    picked_output_dir, DocumentUri, OutputDirStep,
};
use yuralock_app::process::Operation;

fn split_join_parent(s: &str) -> String {
    let parts = s.split('/').collect::<Vec<&str>>();
    parts[0..parts.len() - 1].join("/")
}

#[test]
fn parent_uri_drops_last_segment() {
    assert_eq!(parent_uri("content://a/b/c.txt"), "content://a/b");
    assert_eq!(parent_uri("a/b/"), "a/b");
    assert_eq!(parent_uri("/x"), "");
    assert_eq!(parent_uri("file"), "");
    assert_eq!(parent_uri(""), "");
    assert_eq!(parent_uri("目录/文件"), "目录");
}

#[test]
fn parent_uri_matches_split_and_join() {
    let samples = ["", "/", "//", "a", "a/", "/a", "a/b", "a//b", "x/y/z", "é/ß/字", "a/b/c/"];
    for s in samples {
        assert_eq!(parent_uri(s), split_join_parent(s), "{:?}", s);
    }
}

#[test]
fn parent_uri_then_last_segment_rebuilds_uri() {
    let s = "content://tree/docs/report.pdf";
    let p = parent_uri(s);
    assert_eq!(format!("{}/{}", p, "report.pdf"), s);
}

#[test]
fn output_dir_uses_non_empty_parent() {
    assert_eq!(output_dir_from_parent(Some("/home/u".to_string())), Some("/home/u".to_string()));
    assert_eq!(output_dir_from_parent(Some(String::new())), None);
    assert_eq!(output_dir_from_parent(None), None);
}

fn uri(u: &str, tree: Option<&str>) -> DocumentUri {
    DocumentUri { uri: u.to_string(), document_top_tree_uri: tree.map(|t| t.to_string()) }
}

#[test]
fn output_dir_from_tree_is_used() {
    match output_dir_step(uri("content://d", Some("content://t"))) {
        OutputDirStep::Use(d) => assert_eq!(d.uri, "content://d"),
        OutputDirStep::Pick(_) => panic!("expected the directory to be used"),
    }
    match output_dir_step(uri("content://d", None)) {
        OutputDirStep::Pick(d) => assert_eq!(d.uri, "content://d"),
        OutputDirStep::Use(_) => panic!("expected a picker"),
    }
}

#[test]
fn pickers_report_missing_choice() {
    assert_eq!(picked_output_dir(Some(uri("a", None))).unwrap().uri, "a");
    assert_eq!(
        picked_output_dir(None).err(),
        Some("未授予输出目录写入权限，请重新选择目录".to_string())
    );
    assert_eq!(picked_input_file(Some(uri("b", None))).unwrap().uri, "b");
    assert_eq!(picked_input_file(None).err(), Some("文件选择器无返回文件".to_string()));
    assert_eq!(picked_or_empty(Some("/p".to_string())), "/p");
    assert_eq!(picked_or_empty(None), "");
}

#[test]
fn success_messages() {
    let r = crypto_success("/o".to_string(), &Operation::Encrypt { part: 50 });
    assert_eq!(r.output_path, "/o");
    assert_eq!(r.message, "加密成功");
    let r = crypto_success("/p".to_string(), &Operation::Decrypt);
    assert_eq!(r.message, "解密成功");
}

#[test]
fn toast_defaults_to_success() {
    let t = toast_payload("hi".to_string(), None);
    assert_eq!(t.message, "hi");
    assert_eq!(t.toast_type, "success");
    let t = toast_payload("bad".to_string(), Some("error".to_string()));
    assert_eq!(t.toast_type, "error");
}

#[test]
fn integrity_passes_only_on_matching_check() {
    assert_eq!(integrity_result(Some(true), Platform::Desktop), Ok(()));
    assert_eq!(integrity_result(Some(false), Platform::Desktop), Err("与原始文件校验不一致".to_string()));
    assert_eq!(integrity_result(None, Platform::Desktop), Err("与原始文件校验不一致".to_string()));
    assert_eq!(
        integrity_result(Some(false), Platform::Android),
        Err("文件校验失败，与原始文件不一致".to_string())
    );
}
