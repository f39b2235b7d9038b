use s3_signer::open_api::{merge, path_name, prefixed_path, rooted_path, swagger_redirect};

#[test]
fn merge_puts_the_second_list_after_the_first() {
    assert_eq!(merge(Some(vec![1, 2]), Some(vec![3])), Some(vec![1, 2, 3]));
    assert_eq!(merge(Some(vec![1, 2]), Some(vec![])), Some(vec![1, 2]));
    assert_eq!(merge(Some(vec![]), Some(vec![3, 3])), Some(vec![3, 3]));
}

#[test]
fn merge_keeps_the_list_that_is_there() {
    assert_eq!(merge(Some(vec!["a"]), None), Some(vec!["a"]));
    assert_eq!(merge(None, Some(vec!["b"])), Some(vec!["b"]));
    assert_eq!(merge(Some(Vec::<u8>::new()), None), Some(vec![]));
}

#[test]
fn merge_of_nothing_is_nothing() {
    assert_eq!(merge::<String>(None, None), None);
}

#[test]
fn prefixed_path_puts_one_slash_between_the_prefix_and_the_path() {
    assert_eq!(prefixed_path("api", "/objects"), "/api/objects");
    assert_eq!(prefixed_path("/api/", "objects"), "/api/objects");
    assert_eq!(prefixed_path("//api//", "///objects"), "/api/objects");
    assert_eq!(
        prefixed_path("api", "/multipart-upload/{upload_id}/part/{part_number}"),
        "/api/multipart-upload/{upload_id}/part/{part_number}"
    );
}

#[test]
fn prefixed_path_keeps_the_slashes_inside_and_behind() {
    assert_eq!(prefixed_path("a/b", "c//d/"), "/a/b/c//d/");
    assert_eq!(prefixed_path("", ""), "//");
    assert_eq!(prefixed_path("///", "/"), "//");
    assert_eq!(prefixed_path("é", "日本/"), "/é/日本/");
}

#[test]
fn rooted_path_starts_with_one_slash() {
    assert_eq!(rooted_path("api-doc.json"), "/api-doc.json");
    assert_eq!(rooted_path("/api-doc.json"), "/api-doc.json");
    assert_eq!(rooted_path("///a/b/"), "/a/b/");
    assert_eq!(rooted_path(""), "/");
}

#[test]
fn path_name_has_no_slash_around_it() {
    assert_eq!(path_name("swagger-ui"), "swagger-ui");
    assert_eq!(path_name("/swagger-ui/"), "swagger-ui");
    assert_eq!(path_name("//a/b//"), "a/b");
    assert_eq!(path_name("///"), "");
    assert_eq!(path_name(""), "");
}

#[test]
fn swagger_redirect_sends_the_bare_name_to_its_page() {
    assert_eq!(
        swagger_redirect("/swagger-ui", "swagger-ui"),
        Some("/swagger-ui/".to_string())
    );
    assert_eq!(swagger_redirect("/swagger-ui/", "swagger-ui"), None);
    assert_eq!(swagger_redirect("/swagger-ui/index.html", "swagger-ui"), None);
    assert_eq!(swagger_redirect("/other", "swagger-ui"), None);
    assert_eq!(swagger_redirect("", ""), Some("//".to_string()));
    assert_eq!(swagger_redirect("/a/b", "a/b"), Some("/a/b/".to_string()));
}
