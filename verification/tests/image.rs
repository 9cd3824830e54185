use light_containerd::command::{exec_command, Invocation, Output};
use light_containerd::error::{EngineError, Tool};
use light_containerd::image::{join_path, ImageRef, OciBundle, OciImage};

fn words(list: &[&str]) -> Vec<String> {
    list.iter().map(|w| w.to_string()).collect()
}

fn finished(success: bool, stdout: &[u8], stderr: &[u8]) -> Output {
    Output { success, stdout: stdout.to_vec(), stderr: stderr.to_vec() }
}

#[test]
fn image_spec_without_tag_means_latest() {
    assert_eq!(
        ImageRef::parse("busybox"),
        Ok(ImageRef { name: "busybox".to_string(), tag: "latest".to_string() })
    );
}

#[test]
fn image_spec_is_split_at_the_first_colon() {
    assert_eq!(
        ImageRef::parse("busybox:1.36"),
        Ok(ImageRef { name: "busybox".to_string(), tag: "1.36".to_string() })
    );
    assert_eq!(
        ImageRef::parse("a:b:c"),
        Ok(ImageRef { name: "a".to_string(), tag: "b:c".to_string() })
    );
    assert_eq!(
        ImageRef::parse("library/alpine:3"),
        Ok(ImageRef { name: "library/alpine".to_string(), tag: "3".to_string() })
    );
    assert_eq!(
        ImageRef::parse("caf\u{e9}:t\u{e9}"),
        Ok(ImageRef { name: "caf\u{e9}".to_string(), tag: "t\u{e9}".to_string() })
    );
}

#[test]
fn image_spec_may_have_an_empty_name_or_tag() {
    assert_eq!(
        ImageRef::parse(":edge"),
        Ok(ImageRef { name: String::new(), tag: "edge".to_string() })
    );
    assert_eq!(
        ImageRef::parse("busybox:"),
        Ok(ImageRef { name: "busybox".to_string(), tag: String::new() })
    );
    assert_eq!(ImageRef::parse(":"), Ok(ImageRef { name: String::new(), tag: String::new() }));
}

#[test]
fn empty_image_spec_is_refused() {
    assert_eq!(ImageRef::parse(""), Err(EngineError::EmptySpec));
    assert_eq!(OciImage::fetch_from_docker_hub("", "/tmp/src"), Err(EngineError::EmptySpec));
}

#[test]
fn fetch_runs_the_copy_tool() {
    let call = OciImage::fetch_from_docker_hub("busybox", "/tmp/.tmpAbC").unwrap();
    assert_eq!(call.program, "skopeo");
    assert_eq!(
        call.args,
        words(&["copy", "docker://docker.io/busybox:latest", "oci:/tmp/.tmpAbC:latest"])
    );
    assert!(call.env.is_empty());
    assert!(call.inherit.is_empty());

    let tagged = OciImage::fetch_from_docker_hub("alpine:3.19", "/var/tmp/x").unwrap();
    assert_eq!(tagged.program, "skopeo");
    assert_eq!(
        tagged.args,
        words(&["copy", "docker://docker.io/alpine:3.19", "oci:/var/tmp/x:3.19"])
    );
}

#[test]
fn fetched_image_is_the_directory_it_was_copied_to() {
    let call = OciImage::fetch_from_docker_hub("busybox", "/tmp/src").unwrap();
    let image = OciImage::fetched("/tmp/src", &call, finished(true, b"", b"warning")).unwrap();
    assert_eq!(image.dir(), "/tmp/src");
}

#[test]
fn failed_fetch_tells_the_command_and_what_it_wrote() {
    let call = OciImage::fetch_from_docker_hub("nosuch:tag", "/tmp/src").unwrap();
    let err = OciImage::fetched("/tmp/src", &call, finished(false, b"out", b"manifest unknown\n"))
        .unwrap_err();
    assert_eq!(
        err,
        EngineError::ToolFailed {
            tool: Tool::Copy,
            command: "skopeo copy docker://docker.io/nosuch:tag oci:/tmp/src:tag".to_string(),
            stderr: "manifest unknown\n".to_string(),
        }
    );
    assert_eq!(
        err.message(),
        "failed to fetch container, `skopeo copy docker://docker.io/nosuch:tag oci:/tmp/src:tag` returned non-zero exit status: [manifest unknown\n]"
    );
    assert_eq!(
        OciImage::fetched("/tmp/src", &call, finished(false, b"", b"\xff\xfe")),
        Err(EngineError::InvalidUtf8)
    );
}

#[test]
fn bundle_is_laid_out_below_its_base() {
    let (bundle, call) = OciBundle::unpack_from("/tmp/image", "/tmp/.tmpBase");
    assert_eq!(bundle.base_dir(), "/tmp/.tmpBase");
    assert_eq!(bundle.bundle_dir(), "/tmp/.tmpBase/bundle");
    assert_eq!(bundle.exits_dir(), "/tmp/.tmpBase/exits");
    assert_eq!(bundle.log_file(), "/tmp/.tmpBase/container.log");
    assert_eq!(bundle.pid_file(), "/tmp/.tmpBase/container.pid");
    assert_eq!(call.program, "umoci");
    assert_eq!(
        call.args,
        words(&["unpack", "--rootless", "--image=/tmp/image:latest", "/tmp/.tmpBase/bundle"])
    );
    assert!(call.env.is_empty());
    assert!(call.inherit.is_empty());
}

#[test]
fn image_unpacks_from_its_own_directory() {
    let fetch = OciImage::fetch_from_docker_hub("busybox", "/tmp/src").unwrap();
    let image = OciImage::fetched("/tmp/src", &fetch, finished(true, b"", b"")).unwrap();
    let (bundle, call) = image.unpack("/base/");
    assert_eq!(bundle.bundle_dir(), "/base/bundle");
    assert_eq!(
        call.args,
        words(&["unpack", "--rootless", "--image=/tmp/src:latest", "/base/bundle"])
    );
    assert_eq!(bundle.clone(), bundle);
}

#[test]
fn unpacked_bundle_is_kept_on_success_only() {
    let (bundle, call) = OciBundle::unpack_from("/tmp/image", "/b");
    let kept = bundle.clone().unpacked(&call, finished(true, b"", b"")).unwrap();
    assert_eq!(kept, bundle);
    let err = bundle.unpacked(&call, finished(false, b"", b"no such image")).unwrap_err();
    assert_eq!(
        err,
        EngineError::ToolFailed {
            tool: Tool::Unpack,
            command: "umoci unpack --rootless --image=/tmp/image:latest /b/bundle".to_string(),
            stderr: "no such image".to_string(),
        }
    );
    assert_eq!(
        err.message(),
        "failed to unpack OCI container, `umoci unpack --rootless --image=/tmp/image:latest /b/bundle` returned non-zero exit status: [no such image]"
    );
}

#[test]
fn names_are_put_below_directories() {
    assert_eq!(join_path("/tmp/x", "bundle"), "/tmp/x/bundle");
    assert_eq!(join_path("/tmp/x/", "bundle"), "/tmp/x/bundle");
    assert_eq!(join_path("/", "exits"), "/exits");
    assert_eq!(join_path("", "exits"), "exits");
    assert_eq!(join_path("rel", "a.log"), "rel/a.log");
    assert_eq!(join_path("/tmp/\u{e9}", "x"), "/tmp/\u{e9}/x");
}

#[test]
fn joined_names_agree_with_the_standard_library() {
    for base in ["/tmp/x", "/tmp/x/", "/", "", "rel", "a/b/"] {
        for name in ["bundle", "container.pid", "0f8fad5b-d9cb-469f-a165-70867728950e"] {
            let expected = std::path::Path::new(base).join(name);
            assert_eq!(join_path(base, name), expected.to_str().unwrap());
        }
    }
}

#[test]
fn command_is_shown_with_spaces_between_its_words() {
    let mut call = Invocation::new("/usr/bin/crun");
    assert_eq!(call.display(), "/usr/bin/crun");
    call.arg("delete");
    call.arg("--force");
    call.arg("foo");
    assert_eq!(call.display(), "/usr/bin/crun delete --force foo");
    assert_eq!(call.args, words(&["delete", "--force", "foo"]));
}

#[test]
fn successful_command_gives_its_output() {
    let call = Invocation::new("/usr/bin/crun");
    assert_eq!(
        exec_command(Tool::Runtime, &call, finished(true, b"{\"a\":1}", b"noise")),
        Ok(b"{\"a\":1}".to_vec())
    );
}

#[test]
fn failed_command_tells_what_it_wrote() {
    let mut call = Invocation::new("/usr/bin/crun");
    call.arg("pause");
    call.arg("foo");
    let err = exec_command(Tool::Runtime, &call, finished(false, b"ignored", b"not running"))
        .unwrap_err();
    assert_eq!(
        err,
        EngineError::ToolFailed {
            tool: Tool::Runtime,
            command: "/usr/bin/crun pause foo".to_string(),
            stderr: "not running".to_string(),
        }
    );
    assert_eq!(err.message(), "`/usr/bin/crun pause foo` returned: [not running]");
    assert_eq!(
        exec_command(Tool::Runtime, &call, finished(false, b"", b"\x80")),
        Err(EngineError::InvalidUtf8)
    );
}
