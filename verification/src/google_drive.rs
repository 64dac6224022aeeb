use vstd::prelude::*;

use crate::str_eq;

verus! {

/// The MIME tag the remote store gives to a spreadsheet document, the only
/// content kind that can be exported and parsed as a forecast.
pub open spec fn google_sheet_mime() -> Seq<char> {
    "application/vnd.google-apps.spreadsheet"@
}

/// Identity of a document as the remote store reports it in a folder listing:
/// a stable opaque id, a display name, a MIME-like content kind, and the
/// authoritative modification time (Unix seconds). Reconstructed on every
/// listing call, never persisted as-is.
#[derive(Clone, Debug, PartialEq, Eq)]
pub struct ListFileMetadata {
    /// The MIME type of the file.
    pub mime_type: String,
    /// The stable id of the file, unique within the store.
    pub id: String,
    /// The display name of the file; not necessarily unique within a folder.
    pub name: String,
    /// The last time the file was modified by anyone, in Unix seconds.
    pub modified_time: i64,
}

impl ListFileMetadata {
    /// Whether the document's content kind is the spreadsheet kind.
    pub open spec fn spec_is_google_sheet(self) -> bool {
        self.mime_type@ == google_sheet_mime()
    }

    pub fn is_google_sheet(&self) -> (r: bool)
        ensures
            r == self.spec_is_google_sheet(),
    {
        str_eq(self.mime_type.as_str(), "application/vnd.google-apps.spreadsheet")
    }
}

/// Finds the first listed document whose display name equals `file_name`.
pub fn get_file_in_list<'a>(file_name: &str, file_list: &'a [ListFileMetadata]) -> (r: Option<
    &'a ListFileMetadata,
>)
    ensures
        (r matches Some(m) ==> exists|i: int|
            0 <= i < file_list@.len() && file_list@[i] == *m && m.name@ == file_name@ && (forall|
                j: int,
            | 0 <= j < i ==> file_list@[j].name@ != file_name@)),
        r is None ==> forall|i: int| 0 <= i < file_list@.len() ==> file_list@[i].name@ != file_name@,
{
    let n = file_list.len();
    let mut i: usize = 0;
    while i < n
        invariant
            i <= n,
            n == file_list@.len(),
            forall|j: int| 0 <= j < i ==> file_list@[j].name@ != file_name@,
        decreases n - i,
    {
        if str_eq(file_list[i].name.as_str(), file_name) {
            return Some(&file_list[i]);
        }
        i += 1;
    }
    None
}

} // verus!
