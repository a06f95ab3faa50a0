use base64::Engine;
use rfd_render::content::RenderableRfd;
use rfd_render::errors::{FileIoError, GitHubError, RfdContentError, RfdOutputError, TaskError};
use rfd_render::render::{
    image_destination, stage_descriptors, FileStore, GitHubRfdLocation, ImageDescriptor,
    PdfConverter, RenderedPdf, RfdNumber, SourceControlClient,
};

const ROOT: &str = "/scratch";

fn location() -> GitHubRfdLocation {
    GitHubRfdLocation {
        owner: String::from("acme"),
        repo: String::from("designs"),
        branch: String::from("main"),
    }
}

fn b64(bytes: &[u8]) -> String {
    base64::engine::general_purpose::STANDARD.encode(bytes)
}

/// A source-control double that serves a fixed image list.
struct FakeClient {
    images: Vec<ImageDescriptor>,
    calls: usize,
}

impl SourceControlClient for FakeClient {
    fn get_images(
        &mut self,
        _number: &RfdNumber,
        _location: &GitHubRfdLocation,
    ) -> Result<Vec<ImageDescriptor>, GitHubError> {
        self.calls += 1;
        Ok(self.images.clone())
    }
}

/// An in-memory file store recording every operation.
struct MemStore {
    files: Vec<(String, Vec<u8>)>,
    dirs: Vec<String>,
    removed: Vec<String>,
}

impl MemStore {
    fn new() -> MemStore {
        MemStore { files: Vec::new(), dirs: Vec::new(), removed: Vec::new() }
    }

    fn has_file(&self, path: &str) -> bool {
        self.files.iter().any(|(p, _)| p == path)
    }

    fn file_bytes(&self, path: &str) -> Option<&Vec<u8>> {
        self.files.iter().find(|(p, _)| p == path).map(|(_, b)| b)
    }
}

impl FileStore for MemStore {
    fn create_dir_all(&mut self, path: &str) -> Result<(), FileIoError> {
        if !self.dirs.iter().any(|d| d == path) {
            self.dirs.push(String::from(path));
        }
        Ok(())
    }

    fn write_file(&mut self, path: &str, contents: &[u8]) -> Result<(), FileIoError> {
        self.files.push((String::from(path), contents.to_vec()));
        Ok(())
    }

    fn dir_exists(&mut self, path: &str) -> bool {
        self.dirs.iter().any(|d| d == path)
    }

    fn remove_dir_all(&mut self, path: &str) -> Result<(), FileIoError> {
        self.dirs.retain(|d| d != path);
        self.removed.push(String::from(path));
        Ok(())
    }
}

/// A converter double returning fixed bytes.
struct FakeConverter {
    bytes: Vec<u8>,
    calls: usize,
}

impl PdfConverter for FakeConverter {
    fn convert(&mut self, _content: &str, _content_dir: &str) -> Result<RenderedPdf, TaskError> {
        self.calls += 1;
        Ok(RenderedPdf::from(self.bytes.clone()))
    }
}

/// Doubles that fail the test if the render consults any collaborator.
struct NoCallClient;

impl SourceControlClient for NoCallClient {
    fn get_images(
        &mut self,
        _number: &RfdNumber,
        _location: &GitHubRfdLocation,
    ) -> Result<Vec<ImageDescriptor>, GitHubError> {
        panic!("source control must not be consulted");
    }
}

struct NoCallStore;

impl FileStore for NoCallStore {
    fn create_dir_all(&mut self, _path: &str) -> Result<(), FileIoError> {
        panic!("file store must not be touched");
    }

    fn write_file(&mut self, _path: &str, _contents: &[u8]) -> Result<(), FileIoError> {
        panic!("file store must not be touched");
    }

    fn dir_exists(&mut self, _path: &str) -> bool {
        panic!("file store must not be touched");
    }

    fn remove_dir_all(&mut self, _path: &str) -> Result<(), FileIoError> {
        panic!("file store must not be touched");
    }
}

struct NoCallConverter;

impl PdfConverter for NoCallConverter {
    fn convert(&mut self, _content: &str, _content_dir: &str) -> Result<RenderedPdf, TaskError> {
        panic!("converter must not be invoked");
    }
}

#[test]
fn workspace_paths_of_independent_documents_differ() {
    let a = RenderableRfd::new_asciidoc(String::from("= T\n"));
    let b = RenderableRfd::new_asciidoc(String::from("= T\n"));
    assert_ne!(a.workspace_path(ROOT), b.workspace_path(ROOT));
}

#[test]
fn workspace_path_is_idempotent() {
    let doc = RenderableRfd::new_asciidoc(String::from("= T\n"));
    let first = doc.workspace_path(ROOT);
    let second = doc.workspace_path(ROOT);
    assert_eq!(first, second);
    // root + "/rfd-render/" + a 36-character identifier
    assert_eq!(first.len(), ROOT.len() + 12 + 36);
    assert!(first.starts_with("/scratch/rfd-render/"));
}

#[test]
fn repo_path_is_zero_padded() {
    assert_eq!(RfdNumber { value: 7 }.repo_path(), "/rfd/0007");
    assert_eq!(RfdNumber { value: 42 }.repo_path(), "/rfd/0042");
    assert_eq!(RfdNumber { value: 123 }.repo_path(), "/rfd/0123");
    assert_eq!(RfdNumber { value: 1234 }.repo_path(), "/rfd/1234");
    assert_eq!(RfdNumber { value: 99999 }.repo_path(), "/rfd/99999");
    assert_eq!(RfdNumber { value: 0 }.repo_path(), "/rfd/0000");
}

#[test]
fn image_destination_strips_document_directory() {
    assert_eq!(image_destination("/ws", "/7/", "/7/img/diagram.png"), "/ws/img/diagram.png");
    // leading-slash variation in the descriptor path
    assert_eq!(image_destination("/ws", "/7/", "7/img/diagram.png"), "/ws/img/diagram.png");
    assert_eq!(image_destination("/ws", "/7/", "//7/img/diagram.png"), "/ws/img/diagram.png");
    // trailing-slash variation in the directory
    assert_eq!(image_destination("/ws", "/7", "/7/img/diagram.png"), "/ws/img/diagram.png");
    // an image outside the document directory keeps its whole path
    assert_eq!(image_destination("/ws", "/7/", "/8/img/x.png"), "/ws/8/img/x.png");
}

#[test]
fn markdown_render_fails_without_any_collaborator_call() {
    let doc = RenderableRfd::new_markdown(String::from("# T\n"));
    let r = doc.to_pdf(
        &mut NoCallClient,
        &mut NoCallStore,
        &mut NoCallConverter,
        &RfdNumber { value: 7 },
        &location(),
        ROOT,
    );
    assert!(matches!(r, Err(RfdOutputError::FormatNotSupported)));
}

#[test]
fn staged_image_lands_at_mirrored_path() {
    let doc = RenderableRfd::new_asciidoc(String::from("= T\nbody\n"));
    let number = RfdNumber { value: 7 };
    let mut client = FakeClient {
        images: vec![ImageDescriptor {
            path: String::from("/rfd/0007/img/diagram.png"),
            content: b64(b"png-bytes"),
        }],
        calls: 0,
    };
    let mut store = MemStore::new();
    let r = doc.download_images(&mut client, &mut store, &number, &location(), ROOT);
    assert!(r.is_ok());
    assert_eq!(client.calls, 1);
    let expected = format!("{}/img/diagram.png", doc.workspace_path(ROOT));
    assert!(store.has_file(&expected));
    assert_eq!(store.file_bytes(&expected).unwrap(), b"png-bytes");
}

#[test]
fn decode_failure_aborts_staging_and_keeps_earlier_images() {
    let doc = RenderableRfd::new_asciidoc(String::from("= T\nbody\n"));
    let number = RfdNumber { value: 7 };
    let mut client = FakeClient {
        images: vec![
            ImageDescriptor {
                path: String::from("/rfd/0007/a.png"),
                content: b64(b"first"),
            },
            ImageDescriptor {
                path: String::from("/rfd/0007/b.png"),
                content: String::from("%%% not base64 %%%"),
            },
            ImageDescriptor {
                path: String::from("/rfd/0007/c.png"),
                content: b64(b"third"),
            },
        ],
        calls: 0,
    };
    let mut store = MemStore::new();
    let r = doc.download_images(&mut client, &mut store, &number, &location(), ROOT);
    assert!(matches!(r, Err(RfdContentError::Decode(_))));
    let ws = doc.workspace_path(ROOT);
    // the image staged before the failing one remains; the later one was
    // never written
    assert!(store.has_file(&format!("{}/a.png", ws)));
    assert!(!store.has_file(&format!("{}/b.png", ws)));
    assert!(!store.has_file(&format!("{}/c.png", ws)));
}

#[test]
fn successful_render_returns_tagged_artifact_and_cleans_up() {
    let doc = RenderableRfd::new_asciidoc(String::from("= T\nbody\n"));
    let number = RfdNumber { value: 42 };
    let mut client = FakeClient {
        images: vec![ImageDescriptor {
            path: String::from("/rfd/0042/img/x.png"),
            content: b64(b"x"),
        }],
        calls: 0,
    };
    let mut store = MemStore::new();
    let mut converter = FakeConverter { bytes: vec![1, 2, 3], calls: 0 };
    let r = doc.to_pdf(&mut client, &mut store, &mut converter, &number, &location(), ROOT);
    let pdf = r.unwrap();
    assert_eq!(pdf.contents, vec![1, 2, 3]);
    assert_eq!(pdf.number, number);
    assert_eq!(converter.calls, 1);
    // the workspace was created and then removed on the success path
    let ws = doc.workspace_path(ROOT);
    assert_eq!(store.removed, vec![ws.clone()]);
    assert!(!store.dir_exists(&ws));
}

#[test]
fn staging_failure_leaves_workspace_in_place() {
    let doc = RenderableRfd::new_asciidoc(String::from("= T\n"));
    let number = RfdNumber { value: 7 };
    let mut client = FakeClient {
        images: vec![ImageDescriptor {
            path: String::from("/rfd/0007/bad.png"),
            content: String::from("!!!"),
        }],
        calls: 0,
    };
    let mut store = MemStore::new();
    let mut converter = NoCallConverter;
    let r = doc.to_pdf(&mut client, &mut store, &mut converter, &number, &location(), ROOT);
    assert!(matches!(
        r,
        Err(RfdOutputError::ContentFailure(RfdContentError::Decode(_)))
    ));
    // failure short-circuits: no cleanup ran, the workspace directory stays
    let ws = doc.workspace_path(ROOT);
    assert!(store.removed.is_empty());
    assert!(store.dir_exists(&ws));
}

/// A converter double whose unit of work always fails.
struct FailingConverter;

impl PdfConverter for FailingConverter {
    fn convert(&mut self, _content: &str, _content_dir: &str) -> Result<RenderedPdf, TaskError> {
        Err(TaskError { message: String::from("worker did not finish") })
    }
}

/// A store whose directory removal always fails; everything else is the
/// in-memory store.
struct FailRemoveStore {
    inner: MemStore,
}

impl FileStore for FailRemoveStore {
    fn create_dir_all(&mut self, path: &str) -> Result<(), FileIoError> {
        self.inner.create_dir_all(path)
    }

    fn write_file(&mut self, path: &str, contents: &[u8]) -> Result<(), FileIoError> {
        self.inner.write_file(path, contents)
    }

    fn dir_exists(&mut self, path: &str) -> bool {
        self.inner.dir_exists(path)
    }

    fn remove_dir_all(&mut self, path: &str) -> Result<(), FileIoError> {
        Err(FileIoError::Remove { path: String::from(path) })
    }
}

#[test]
fn converter_failure_is_a_command_error_and_skips_cleanup() {
    let doc = RenderableRfd::new_asciidoc(String::from("= T\nbody\n"));
    let number = RfdNumber { value: 7 };
    let mut client = FakeClient { images: Vec::new(), calls: 0 };
    let mut store = MemStore::new();
    let mut converter = FailingConverter;
    let r = doc.to_pdf(&mut client, &mut store, &mut converter, &number, &location(), ROOT);
    assert!(matches!(r, Err(RfdOutputError::Command(_))));
    // failure short-circuits: the workspace is left behind
    let ws = doc.workspace_path(ROOT);
    assert!(store.removed.is_empty());
    assert!(store.dir_exists(&ws));
}

#[test]
fn cleanup_failure_is_swallowed_on_success() {
    let doc = RenderableRfd::new_asciidoc(String::from("= T\nbody\n"));
    let number = RfdNumber { value: 7 };
    let mut client = FakeClient { images: Vec::new(), calls: 0 };
    let mut store = FailRemoveStore { inner: MemStore::new() };
    let mut converter = FakeConverter { bytes: vec![4, 5], calls: 0 };
    let r = doc.to_pdf(&mut client, &mut store, &mut converter, &number, &location(), ROOT);
    // the removal failed, but the render still succeeds
    let pdf = r.unwrap();
    assert_eq!(pdf.contents, vec![4, 5]);
    assert_eq!(pdf.number, number);
}

#[test]
fn staging_a_clean_list_writes_every_image() {
    let mut store = MemStore::new();
    let images = vec![
        ImageDescriptor { path: String::from("/7/a.png"), content: b64(b"aa") },
        ImageDescriptor { path: String::from("/7/img/b.png"), content: b64(b"bb") },
    ];
    let r = stage_descriptors(&mut store, &images, "/ws", "/7/");
    assert!(r.is_ok());
    assert_eq!(store.file_bytes("/ws/a.png").unwrap(), b"aa");
    assert_eq!(store.file_bytes("/ws/img/b.png").unwrap(), b"bb");
}

#[test]
fn staging_a_malformed_list_is_a_decode_error() {
    let mut store = MemStore::new();
    let images = vec![ImageDescriptor {
        path: String::from("/7/a.png"),
        content: String::from("///not base64///"),
    }];
    let r = stage_descriptors(&mut store, &images, "/ws", "/7/");
    assert!(matches!(r, Err(RfdContentError::Decode(_))));
    assert!(store.files.is_empty());
}

#[test]
fn content_errors_wrap_one_to_one() {
    let wrapped = RfdOutputError::from_content(RfdContentError::ParserFailed);
    assert!(matches!(
        wrapped,
        RfdOutputError::ContentFailure(RfdContentError::ParserFailed)
    ));
}

#[test]
fn rendered_pdf_wraps_bytes() {
    let pdf = RenderedPdf::from(vec![9, 8, 7]);
    assert_eq!(pdf.into_inner(), vec![9, 8, 7]);
}
