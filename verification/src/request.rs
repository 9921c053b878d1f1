use crate::error::PlatformError;
use crate::ids::{ChannelId, DataReaderId};
use vstd::prelude::*;
use vstd::string::StringExecFns;

verus! {

/// The methods of the protocol.
#[derive(Clone, Copy, Debug, PartialEq, Eq, Structural)]
pub enum Method {
    DisposeReader,
    GetItems,
    GetItemFormats,
    ItemFormatIsSynthetized,
    GetItemSuggestedName,
    GetItemData,
    CancelProgress,
    CanGetVirtualFile,
    GetVirtualFile,
}

fn same_text(a: &str, b: &str) -> (res: bool)
    ensures
        res == (a@ == b@),
{
    let a = String::from_str(a);
    let b = String::from_str(b);
    a == b
}

impl Method {
    /// The name under which the method is requested.
    pub open spec fn name_spec(self) -> Seq<char> {
        match self {
            Method::DisposeReader => "disposeReader"@,
            Method::GetItems => "getItems"@,
            Method::GetItemFormats => "getItemFormats"@,
            Method::ItemFormatIsSynthetized => "itemFormatIsSynthetized"@,
            Method::GetItemSuggestedName => "getItemSuggestedName"@,
            Method::GetItemData => "getItemData"@,
            Method::CancelProgress => "cancelProgress"@,
            Method::CanGetVirtualFile => "canGetVirtualFile"@,
            Method::GetVirtualFile => "getVirtualFile"@,
        }
    }

    /// The name under which the method is requested.
    pub fn name(self) -> (res: &'static str)
        ensures
            res@ == self.name_spec(),
    {
        match self {
            Method::DisposeReader => "disposeReader",
            Method::GetItems => "getItems",
            Method::GetItemFormats => "getItemFormats",
            Method::ItemFormatIsSynthetized => "itemFormatIsSynthetized",
            Method::GetItemSuggestedName => "getItemSuggestedName",
            Method::GetItemData => "getItemData",
            Method::CancelProgress => "cancelProgress",
            Method::CanGetVirtualFile => "canGetVirtualFile",
            Method::GetVirtualFile => "getVirtualFile",
        }
    }

    /// The method that `name` requests. A name that requests none is
    /// answered with the `invalid_method` failure, which repeats the name.
    pub fn from_name(name: &str) -> (res: Result<Method, PlatformError>)
        ensures
            match res {
                Ok(method) => method.name_spec() == name@,
                Err(e) => e.is_invalid_method(name@) && forall|m: Method|
                    #[trigger] m.name_spec() != name@,
            },
    {
        if same_text(name, "disposeReader") {
            Ok(Method::DisposeReader)
        } else if same_text(name, "getItems") {
            Ok(Method::GetItems)
        } else if same_text(name, "getItemFormats") {
            Ok(Method::GetItemFormats)
        } else if same_text(name, "itemFormatIsSynthetized") {
            Ok(Method::ItemFormatIsSynthetized)
        } else if same_text(name, "getItemSuggestedName") {
            Ok(Method::GetItemSuggestedName)
        } else if same_text(name, "getItemData") {
            Ok(Method::GetItemData)
        } else if same_text(name, "cancelProgress") {
            Ok(Method::CancelProgress)
        } else if same_text(name, "canGetVirtualFile") {
            Ok(Method::CanGetVirtualFile)
        } else if same_text(name, "getVirtualFile") {
            Ok(Method::GetVirtualFile)
        } else {
            Err(PlatformError::invalid_method(name))
        }
    }
}

/// No two methods share a name, so a name requests at most one method.
pub proof fn lemma_method_names_distinct(a: Method, b: Method)
    ensures
        a.name_spec() == b.name_spec() <==> a == b,
{
    reveal_strlit("disposeReader");
    reveal_strlit("getItems");
    reveal_strlit("getItemFormats");
    reveal_strlit("itemFormatIsSynthetized");
    reveal_strlit("getItemSuggestedName");
    reveal_strlit("getItemData");
    reveal_strlit("cancelProgress");
    reveal_strlit("canGetVirtualFile");
    reveal_strlit("getVirtualFile");
    if a != b {
        let x = a.name_spec();
        let y = b.name_spec();
        if x.len() == y.len() {
            // Names of equal length differ in their first or fourth letter.
            assert(x[0] != y[0] || x[3] != y[3]);
        }
    }
}


/// Asks for the formats of one item.
#[derive(Clone, Copy, Debug, PartialEq, Eq)]
pub struct ItemFormatsRequest {
    pub item_handle: i64,
    pub reader_handle: DataReaderId,
}

/// Asks whether a format of one item is synthesized.
#[derive(Debug, PartialEq, Eq)]
pub struct ItemFormatIsSynthetizedRequest {
    pub item_handle: i64,
    pub reader_handle: DataReaderId,
    pub format: String,
}

/// Asks for the name suggested for one item.
#[derive(Clone, Copy, Debug, PartialEq, Eq)]
pub struct ItemSuggestedNameRequest {
    pub item_handle: i64,
    pub reader_handle: DataReaderId,
}

/// Asks for the data of one item in one format. Progress is reported under
/// `progress_id`, which the caller chose.
#[derive(Debug, PartialEq, Eq)]
pub struct ItemDataRequest {
    pub item_handle: i64,
    pub reader_handle: DataReaderId,
    pub format: String,
    pub progress_id: i64,
}

/// Asks for one item as a file in `target_folder`. Progress is reported
/// under `progress_id`, which the caller chose.
#[derive(Debug, PartialEq, Eq)]
pub struct VirtualFileRequest {
    pub item_handle: i64,
    pub reader_handle: DataReaderId,
    pub format: String,
    pub progress_id: i64,
    pub target_folder: String,
}

/// Asks whether one item can be had as a file.
#[derive(Debug, PartialEq, Eq)]
pub struct VirtualFileSupportedRequest {
    pub item_handle: i64,
    pub reader_handle: DataReaderId,
    pub format: String,
}

/// A request with its arguments.
#[derive(Debug, PartialEq, Eq)]
pub enum Request {
    DisposeReader(DataReaderId),
    GetItems(DataReaderId),
    GetItemFormats(ItemFormatsRequest),
    ItemFormatIsSynthetized(ItemFormatIsSynthetizedRequest),
    GetItemSuggestedName(ItemSuggestedNameRequest),
    GetItemData(ItemDataRequest),
    CancelProgress(i64),
    CanGetVirtualFile(VirtualFileSupportedRequest),
    GetVirtualFile(VirtualFileRequest),
}

impl Request {
    /// The method that the request is made under.
    pub open spec fn method_spec(self) -> Method {
        match self {
            Request::DisposeReader(_) => Method::DisposeReader,
            Request::GetItems(_) => Method::GetItems,
            Request::GetItemFormats(_) => Method::GetItemFormats,
            Request::ItemFormatIsSynthetized(_) => Method::ItemFormatIsSynthetized,
            Request::GetItemSuggestedName(_) => Method::GetItemSuggestedName,
            Request::GetItemData(_) => Method::GetItemData,
            Request::CancelProgress(_) => Method::CancelProgress,
            Request::CanGetVirtualFile(_) => Method::CanGetVirtualFile,
            Request::GetVirtualFile(_) => Method::GetVirtualFile,
        }
    }

    /// The method that the request is made under.
    pub fn method(&self) -> (res: Method)
        ensures
            res == self.method_spec(),
    {
        match self {
            Request::DisposeReader(_) => Method::DisposeReader,
            Request::GetItems(_) => Method::GetItems,
            Request::GetItemFormats(_) => Method::GetItemFormats,
            Request::ItemFormatIsSynthetized(_) => Method::ItemFormatIsSynthetized,
            Request::GetItemSuggestedName(_) => Method::GetItemSuggestedName,
            Request::GetItemData(_) => Method::GetItemData,
            Request::CancelProgress(_) => Method::CancelProgress,
            Request::CanGetVirtualFile(_) => Method::CanGetVirtualFile,
            Request::GetVirtualFile(_) => Method::GetVirtualFile,
        }
    }

    /// The reader that the request is about, if it is about one reader.
    /// Disposing of a reader does not count: it needs no reader to be there.
    pub open spec fn reader(self) -> Option<DataReaderId> {
        match self {
            Request::DisposeReader(_) => None,
            Request::GetItems(reader) => Some(reader),
            Request::GetItemFormats(r) => Some(r.reader_handle),
            Request::ItemFormatIsSynthetized(r) => Some(r.reader_handle),
            Request::GetItemSuggestedName(r) => Some(r.reader_handle),
            Request::GetItemData(r) => Some(r.reader_handle),
            Request::CancelProgress(_) => None,
            Request::CanGetVirtualFile(r) => Some(r.reader_handle),
            Request::GetVirtualFile(r) => Some(r.reader_handle),
        }
    }

    /// Whether serving the request opens a progress channel.
    pub open spec fn opens_progress(self) -> bool {
        self is GetItemData || self is GetVirtualFile
    }
}

/// What is left to do for a request once the manager has done its part:
/// nothing, or one question to the reader that the request named. The
/// reader's answer, or its failure, is the answer to the request.
#[derive(Debug, PartialEq, Eq)]
pub enum ReaderCall {
    /// Nothing is left: the request is answered with the unit value.
    Done,
    GetItems { reader: DataReaderId },
    GetFormatsForItem { reader: DataReaderId, item_handle: i64 },
    ItemFormatIsSynthetized { reader: DataReaderId, item_handle: i64, format: String },
    GetSuggestedNameForItem { reader: DataReaderId, item_handle: i64 },
    GetDataForItem { reader: DataReaderId, item_handle: i64, format: String, progress: ChannelId },
    CanGetVirtualFileForItem { reader: DataReaderId, item_handle: i64, format: String },
    GetVirtualFileForItem {
        reader: DataReaderId,
        item_handle: i64,
        format: String,
        target_folder: String,
        progress: ChannelId,
    },
}

} // verus!
