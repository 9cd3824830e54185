//! Images and bundles: how an image is named, which tools fetch and unpack
//! it, and where the pieces of a bundle lie.

use vstd::prelude::*;
use crate::command::{exec_command, plain_call, tool_failure, Invocation, InvocationView, Output};
use crate::error::{EngineError, ErrorView, Tool};
use crate::text::{concat2, concat3, concat5, find_char, first_index, lemma_first_index};

verus! {

/// The name in an image specification: what stands before the first colon.
pub open spec fn image_name(spec: Seq<char>) -> Seq<char> {
    spec.take(first_index(spec, ':'))
}

/// The tag in an image specification: what stands behind the first colon, or
/// `latest` where there is no colon.
pub open spec fn image_tag(spec: Seq<char>) -> Seq<char> {
    if first_index(spec, ':') < spec.len() {
        spec.skip(first_index(spec, ':') + 1)
    } else {
        "latest"@
    }
}

/// A specification is its name alone, or its name, a colon and its tag; and
/// the name holds no colon.
pub proof fn lemma_image_spec_shape(spec: Seq<char>)
    ensures
        !image_name(spec).contains(':'),
        spec == image_name(spec) || spec == image_name(spec) + seq![':'] + image_tag(spec),
        spec == image_name(spec) ==> image_tag(spec) == "latest"@,
{
    lemma_first_index(spec, ':');
    let at = first_index(spec, ':');
    if at < spec.len() {
        assert(spec =~= image_name(spec) + seq![':'] + image_tag(spec));
        assert(spec.take(at).len() < spec.len());
    } else {
        assert(spec =~= image_name(spec));
    }
    if image_name(spec).contains(':') {
        let k = choose|k: int| 0 <= k < image_name(spec).len() && image_name(spec)[k] == ':';
        assert(spec[k] == ':');
    }
}

/// An image as it is named on Docker Hub.
#[derive(Debug, Clone, PartialEq, Eq)]
pub struct ImageRef {
    pub name: String,
    pub tag: String,
}

impl ImageRef {
    /// Splits an image specification, `name` or `name:tag`, at its first
    /// colon. An empty specification is refused, and nothing else is.
    pub fn parse(container_spec: &str) -> (r: Result<ImageRef, EngineError>)
        ensures
            container_spec@.len() == 0 <==> r is Err,
            r matches Err(e) ==> e@ == ErrorView::EmptySpec,
            r matches Ok(image) ==> image.name@ == image_name(container_spec@) && image.tag@
                == image_tag(container_spec@),
    {
        let len = container_spec.unicode_len();
        if len == 0 {
            return Err(EngineError::EmptySpec);
        }
        let at = find_char(container_spec, ':');
        let name = String::from_str(container_spec.substring_char(0, at));
        let tag = if at < len {
            String::from_str(container_spec.substring_char(at + 1, len))
        } else {
            String::from_str("latest")
        };
        Ok(ImageRef { name, tag })
    }

    /// The launch that copies this image from Docker Hub into the directory
    /// `src_dir`.
    pub fn fetch(&self, src_dir: &str) -> (r: Invocation)
        ensures
            r@ == fetch_call(self.name@, self.tag@, src_dir@),
    {
        let image_src = concat5(
            "docker://docker.io/",
            self.name.as_str(),
            ":",
            self.tag.as_str(),
            "",
        );
        let image_dest = concat5("oci:", src_dir, ":", self.tag.as_str(), "");
        proof {
            reveal_strlit("");
            assert(image_src@ =~= "docker://docker.io/"@ + self.name@ + ":"@ + self.tag@);
            assert(image_dest@ =~= "oci:"@ + src_dir@ + ":"@ + self.tag@);
        }
        let mut call = Invocation::new("skopeo");
        call.arg("copy");
        call.arg(image_src.as_str());
        call.arg(image_dest.as_str());
        assert(call@.args =~= fetch_call(self.name@, self.tag@, src_dir@).args);
        call
    }
}

/// The name of the tool that copies images.
pub open spec fn copy_tool() -> Seq<char> {
    "skopeo"@
}

/// The name of the tool that unpacks images.
pub open spec fn unpack_tool() -> Seq<char> {
    "umoci"@
}

/// The launch that copies the image `name:tag` from Docker Hub into the
/// directory `src_dir`.
pub open spec fn fetch_call(name: Seq<char>, tag: Seq<char>, src_dir: Seq<char>) -> InvocationView {
    plain_call(
        copy_tool(),
        seq![
            "copy"@,
            "docker://docker.io/"@ + name + ":"@ + tag,
            "oci:"@ + src_dir + ":"@ + tag,
        ],
    )
}

/// The launch that unpacks the image in `oci_src` into `bundle_dir`.
pub open spec fn unpack_call(oci_src: Seq<char>, bundle_dir: Seq<char>) -> InvocationView {
    plain_call(
        unpack_tool(),
        seq!["unpack"@, "--rootless"@, "--image="@ + oci_src + ":latest"@, bundle_dir],
    )
}

/// `name` below the directory `base`, as `Path::join` puts a relative name
/// below a directory.
pub open spec fn path_below(base: Seq<char>, name: Seq<char>) -> Seq<char> {
    if base.len() == 0 {
        name
    } else if base.last() == '/' {
        base + name
    } else {
        base + "/"@ + name
    }
}

/// Puts the relative `name` below the directory `base`.
pub fn join_path(base: &str, name: &str) -> (r: String)
    ensures
        r@ == path_below(base@, name@),
{
    let len = base.unicode_len();
    if len == 0 {
        String::from_str(name)
    } else if base.get_char(len - 1) == '/' {
        concat2(base, name)
    } else {
        concat3(base, "/", name)
    }
}

/// A fetched image: the directory that holds it.
#[derive(Debug, Clone, PartialEq, Eq)]
pub struct OciImage {
    dir: String,
}

impl View for OciImage {
    type V = Seq<char>;

    closed spec fn view(&self) -> Seq<char> {
        self.dir@
    }
}

impl OciImage {
    /// The launch that fetches the image named by `container_spec`, either
    /// `name` or `name:tag`, from Docker Hub into the directory `src_dir`.
    pub fn fetch_from_docker_hub(container_spec: &str, src_dir: &str) -> (r: Result<
        Invocation,
        EngineError,
    >)
        ensures
            container_spec@.len() == 0 <==> r is Err,
            r matches Err(e) ==> e@ == ErrorView::EmptySpec,
            r matches Ok(call) ==> call@ == fetch_call(
                image_name(container_spec@),
                image_tag(container_spec@),
                src_dir@,
            ),
    {
        match ImageRef::parse(container_spec) {
            Ok(image) => Ok(image.fetch(src_dir)),
            Err(e) => Err(e),
        }
    }

    /// What came of the fetch `call` into `src_dir`: the image, if the tool
    /// exited with success.
    pub fn fetched(src_dir: &str, call: &Invocation, output: Output) -> (r: Result<
        OciImage,
        EngineError,
    >)
        ensures
            output.success <==> r is Ok,
            r matches Ok(image) ==> image@ == src_dir@,
            r matches Err(e) ==> e@ == tool_failure(Tool::Copy, call@, output.stderr@),
    {
        match exec_command(Tool::Copy, call, output) {
            Ok(_) => Ok(OciImage { dir: String::from_str(src_dir) }),
            Err(e) => Err(e),
        }
    }

    /// The directory that holds the image.
    pub fn dir(&self) -> (r: &str)
        ensures
            r@ == self@,
    {
        self.dir.as_str()
    }

    /// The bundle that this image is unpacked into below `base_dir`, and the
    /// launch that unpacks it.
    pub fn unpack(&self, base_dir: &str) -> (r: (OciBundle, Invocation))
        ensures
            r.0@ == bundle_below(base_dir@),
            r.1@ == unpack_call(self@, r.0@.bundle_dir),
    {
        OciBundle::unpack_from(self.dir.as_str(), base_dir)
    }
}

/// A directory that holds an unpacked image and what the monitor keeps
/// beside it. The four paths always lie below the base directory as
/// [`bundle_below`] says.
#[derive(Debug, PartialEq, Eq)]
pub struct OciBundle {
    base_dir: String,
    bundle_dir: String,
    exits_dir: String,
    log_file: String,
    pid_file: String,
}

/// What an [`OciBundle`] stands for.
pub struct BundleView {
    pub base_dir: Seq<char>,
    /// The `bundle` subdirectory, which holds the unpacked image.
    pub bundle_dir: Seq<char>,
    /// The `exits` subdirectory, where the monitor records how containers
    /// ended.
    pub exits_dir: Seq<char>,
    /// The container's log file.
    pub log_file: Seq<char>,
    /// The file that holds the running container's process id.
    pub pid_file: Seq<char>,
}

impl View for OciBundle {
    type V = BundleView;

    closed spec fn view(&self) -> BundleView {
        bundle_below(self.base_dir@)
    }
}

impl Clone for OciBundle {
    fn clone(&self) -> (r: OciBundle)
        ensures
            r@ == self@,
    {
        proof {
            use_type_invariant(self);
        }
        OciBundle {
            base_dir: self.base_dir.clone(),
            bundle_dir: self.bundle_dir.clone(),
            exits_dir: self.exits_dir.clone(),
            log_file: self.log_file.clone(),
            pid_file: self.pid_file.clone(),
        }
    }
}

/// The layout of a bundle below `base`.
pub open spec fn bundle_below(base: Seq<char>) -> BundleView {
    BundleView {
        base_dir: base,
        bundle_dir: path_below(base, "bundle"@),
        exits_dir: path_below(base, "exits"@),
        log_file: path_below(base, "container.log"@),
        pid_file: path_below(base, "container.pid"@),
    }
}

impl OciBundle {
    /// Lays a bundle out below `base_dir` and gives the launch that unpacks
    /// the image in `oci_src` into it.
    pub fn unpack_from(oci_src: &str, base_dir: &str) -> (r: (OciBundle, Invocation))
        ensures
            r.0@ == bundle_below(base_dir@),
            r.1@ == unpack_call(oci_src@, r.0@.bundle_dir),
    {
        let bundle = OciBundle {
            base_dir: String::from_str(base_dir),
            bundle_dir: join_path(base_dir, "bundle"),
            exits_dir: join_path(base_dir, "exits"),
            log_file: join_path(base_dir, "container.log"),
            pid_file: join_path(base_dir, "container.pid"),
        };
        let image_flag = concat3("--image=", oci_src, ":latest");
        let mut call = Invocation::new("umoci");
        call.arg("unpack");
        call.arg("--rootless");
        call.arg(image_flag.as_str());
        call.arg(bundle.bundle_dir.as_str());
        assert(call@.args =~= unpack_call(oci_src@, bundle@.bundle_dir).args);
        (bundle, call)
    }

    /// What came of the unpacking `call`: the bundle, if the tool exited with
    /// success. The `exits` subdirectory is then still to be created: the
    /// tool does not make it.
    pub fn unpacked(self, call: &Invocation, output: Output) -> (r: Result<
        OciBundle,
        EngineError,
    >)
        ensures
            output.success <==> r is Ok,
            r matches Ok(bundle) ==> bundle@ == self@,
            r matches Err(e) ==> e@ == tool_failure(Tool::Unpack, call@, output.stderr@),
    {
        match exec_command(Tool::Unpack, call, output) {
            Ok(_) => Ok(self),
            Err(e) => Err(e),
        }
    }

    #[verifier::type_invariant]
    spec fn laid_out(&self) -> bool {
        &&& self.bundle_dir@ == path_below(self.base_dir@, "bundle"@)
        &&& self.exits_dir@ == path_below(self.base_dir@, "exits"@)
        &&& self.log_file@ == path_below(self.base_dir@, "container.log"@)
        &&& self.pid_file@ == path_below(self.base_dir@, "container.pid"@)
    }

    /// Every bundle is laid out below its base directory.
    pub proof fn lemma_layout(&self)
        ensures
            self@ == bundle_below(self@.base_dir),
    {
    }

    /// The base directory.
    pub fn base_dir(&self) -> (r: &str)
        ensures
            r@ == self@.base_dir,
    {
        self.base_dir.as_str()
    }

    /// The `bundle` subdirectory, which holds the unpacked image.
    pub fn bundle_dir(&self) -> (r: &str)
        ensures
            r@ == self@.bundle_dir,
    {
        proof {
            use_type_invariant(self);
        }
        self.bundle_dir.as_str()
    }

    /// The `exits` subdirectory, where the monitor records how containers
    /// ended.
    pub fn exits_dir(&self) -> (r: &str)
        ensures
            r@ == self@.exits_dir,
    {
        proof {
            use_type_invariant(self);
        }
        self.exits_dir.as_str()
    }

    /// The container's log file.
    pub fn log_file(&self) -> (r: &str)
        ensures
            r@ == self@.log_file,
    {
        proof {
            use_type_invariant(self);
        }
        self.log_file.as_str()
    }

    /// The file that holds the running container's process id.
    pub fn pid_file(&self) -> (r: &str)
        ensures
            r@ == self@.pid_file,
    {
        proof {
            use_type_invariant(self);
        }
        self.pid_file.as_str()
    }
}

} // verus!
