use vstd::prelude::*;

verus! {

/// A file to fetch: where from, and optionally under which name.
#[derive(Debug, PartialEq, Eq)]
pub struct FileDownload {
    pub file_name: Option<String>,
    pub url: Option<String>,
}

/// The mathematical model of a [`FileDownload`].
pub struct FileDownloadView {
    pub file_name: Option<Seq<char>>,
    pub url: Option<Seq<char>>,
}

impl View for FileDownload {
    type V = FileDownloadView;

    open spec fn view(&self) -> FileDownloadView {
        FileDownloadView { file_name: self.file_name.deep_view(), url: self.url.deep_view() }
    }
}

impl DeepView for FileDownload {
    type V = FileDownloadView;

    open spec fn deep_view(&self) -> FileDownloadView {
        self.view()
    }
}

impl Clone for FileDownload {
    fn clone(&self) -> (r: Self)
        ensures
            r@ == self@,
    {
        FileDownload { file_name: self.file_name.clone(), url: self.url.clone() }
    }
}

impl Default for FileDownload {
    fn default() -> (r: Self)
        ensures
            r.file_name is None,
            r.url is None,
    {
        FileDownload { file_name: None, url: None }
    }
}

} // verus!
