use reader_manager::request::{
    ItemDataRequest, ItemFormatIsSynthetizedRequest, ItemFormatsRequest,
    ItemSuggestedNameRequest, VirtualFileRequest, VirtualFileSupportedRequest,
};
use reader_manager::{
    ChannelId, DataReaderId, DataReaderManager, Method, NativeExtensionsError, Notification,
    PlatformError, ProgressUpdate, ReaderCall, Request, SetProgressCancellable,
};
use std::cell::Cell;
use std::rc::Rc;

struct FixedReader {
    items: Vec<i64>,
}

type Handler = Box<dyn FnOnce()>;

type Manager = DataReaderManager<Rc<FixedReader>, Handler>;

fn counting(counter: &Rc<Cell<u32>>) -> Handler {
    let counter = counter.clone();
    Box::new(move || counter.set(counter.get() + 1))
}

const METHODS: [(Method, &str); 9] = [
    (Method::DisposeReader, "disposeReader"),
    (Method::GetItems, "getItems"),
    (Method::GetItemFormats, "getItemFormats"),
    (Method::ItemFormatIsSynthetized, "itemFormatIsSynthetized"),
    (Method::GetItemSuggestedName, "getItemSuggestedName"),
    (Method::GetItemData, "getItemData"),
    (Method::CancelProgress, "cancelProgress"),
    (Method::CanGetVirtualFile, "canGetVirtualFile"),
    (Method::GetVirtualFile, "getVirtualFile"),
];

#[test]
fn every_method_is_found_by_its_name() {
    for (method, name) in METHODS {
        assert_eq!(method.name(), name);
        assert_eq!(Method::from_name(name), Ok(method));
    }
}

#[test]
fn unknown_method_is_invalid() {
    let mut manager = Manager::new();
    let registered =
        manager.register_platform_reader(Rc::new(FixedReader { items: vec![1] }), 1);
    let channel = manager.new_read_progress(1, 2);
    assert_eq!(
        Method::from_name("doStuff"),
        Err(PlatformError {
            code: "invalid_method".to_string(),
            message: Some("Unknown Method: doStuff".to_string()),
        })
    );
    assert!(manager.has_reader(registered.handle));
    assert_eq!(manager.next_handle(), DataReaderId(2));
    assert_eq!(manager.progress_channel(1, 2), Some(channel));
    assert!(manager.is_in_flight(channel));
}

#[test]
fn method_names_are_matched_exactly() {
    for name in ["", "getitems", "GetItems", "getItems ", " getItems", "getItem", "getItemsX"] {
        let error = Method::from_name(name).unwrap_err();
        assert_eq!(error.code, "invalid_method");
        assert_eq!(error.message, Some(format!("Unknown Method: {}", name)));
    }
}

#[test]
fn invalid_method_repeats_the_name() {
    let error = PlatformError::invalid_method("naïve ☃");
    assert_eq!(error.code, "invalid_method");
    assert_eq!(error.message.as_deref(), Some("Unknown Method: naïve ☃"));
}

#[test]
fn request_knows_its_method() {
    assert_eq!(Request::DisposeReader(DataReaderId(1)).method(), Method::DisposeReader);
    assert_eq!(Request::GetItems(DataReaderId(1)).method(), Method::GetItems);
    assert_eq!(Request::CancelProgress(1).method(), Method::CancelProgress);
    assert_eq!(
        Request::GetItemFormats(ItemFormatsRequest {
            item_handle: 1,
            reader_handle: DataReaderId(1)
        })
        .method(),
        Method::GetItemFormats
    );
}

#[test]
fn requests_on_unknown_reader_fail_and_change_nothing() {
    let mut manager = Manager::new();
    let missing = DataReaderId(3);
    let format = || "text/plain".to_string();
    let requests = vec![
        Request::GetItems(missing),
        Request::GetItemFormats(ItemFormatsRequest { item_handle: 1, reader_handle: missing }),
        Request::ItemFormatIsSynthetized(ItemFormatIsSynthetizedRequest {
            item_handle: 1,
            reader_handle: missing,
            format: format(),
        }),
        Request::GetItemSuggestedName(ItemSuggestedNameRequest {
            item_handle: 1,
            reader_handle: missing,
        }),
        Request::GetItemData(ItemDataRequest {
            item_handle: 1,
            reader_handle: missing,
            format: format(),
            progress_id: 9,
        }),
        Request::CanGetVirtualFile(VirtualFileSupportedRequest {
            item_handle: 1,
            reader_handle: missing,
            format: format(),
        }),
        Request::GetVirtualFile(VirtualFileRequest {
            item_handle: 1,
            reader_handle: missing,
            format: format(),
            progress_id: 9,
            target_folder: "/tmp".to_string(),
        }),
    ];
    for request in requests {
        assert_eq!(
            manager.on_method_call(5, request),
            Err(NativeExtensionsError::ReaderNotFound)
        );
    }
    assert_eq!(manager.progress_channel(5, 9), None);
    assert!(!manager.is_in_flight(ChannelId(0)));
    assert_eq!(manager.new_read_progress(5, 9), ChannelId(0));
}

#[test]
fn requests_on_registered_reader_name_the_call() {
    let mut manager = Manager::new();
    let reader = manager
        .register_platform_reader(Rc::new(FixedReader { items: vec![1, 2] }), 5)
        .handle;
    assert_eq!(
        manager.on_method_call(5, Request::GetItems(reader)),
        Ok(ReaderCall::GetItems { reader })
    );
    assert_eq!(
        manager.on_method_call(
            5,
            Request::GetItemFormats(ItemFormatsRequest { item_handle: 2, reader_handle: reader })
        ),
        Ok(ReaderCall::GetFormatsForItem { reader, item_handle: 2 })
    );
    assert_eq!(
        manager.on_method_call(
            5,
            Request::ItemFormatIsSynthetized(ItemFormatIsSynthetizedRequest {
                item_handle: 2,
                reader_handle: reader,
                format: "image/png".to_string(),
            })
        ),
        Ok(ReaderCall::ItemFormatIsSynthetized {
            reader,
            item_handle: 2,
            format: "image/png".to_string()
        })
    );
    assert_eq!(
        manager.on_method_call(
            5,
            Request::GetItemSuggestedName(ItemSuggestedNameRequest {
                item_handle: 1,
                reader_handle: reader
            })
        ),
        Ok(ReaderCall::GetSuggestedNameForItem { reader, item_handle: 1 })
    );
    assert_eq!(
        manager.on_method_call(
            5,
            Request::CanGetVirtualFile(VirtualFileSupportedRequest {
                item_handle: 1,
                reader_handle: reader,
                format: "image/png".to_string(),
            })
        ),
        Ok(ReaderCall::CanGetVirtualFileForItem {
            reader,
            item_handle: 1,
            format: "image/png".to_string()
        })
    );
    assert_eq!(manager.progress_channel(5, 0), None);
    assert_eq!(manager.new_read_progress(5, 0), ChannelId(0));
}

#[test]
fn item_data_request_opens_a_channel() {
    let mut manager = Manager::new();
    let reader = manager
        .register_platform_reader(Rc::new(FixedReader { items: vec![1, 2] }), 5)
        .handle;
    let call = manager.get_item_data(
        5,
        ItemDataRequest {
            item_handle: 2,
            reader_handle: reader,
            format: "text/plain".to_string(),
            progress_id: 40,
        },
    );
    assert_eq!(
        call,
        Ok(ReaderCall::GetDataForItem {
            reader,
            item_handle: 2,
            format: "text/plain".to_string(),
            progress: ChannelId(0),
        })
    );
    assert_eq!(manager.progress_channel(5, 40), Some(ChannelId(0)));
    assert!(manager.is_in_flight(ChannelId(0)));
    assert!(!manager.is_cancellable(ChannelId(0)));
}

#[test]
fn virtual_file_request_opens_a_channel() {
    let mut manager = Manager::new();
    let reader = manager
        .register_platform_reader(Rc::new(FixedReader { items: vec![1, 2] }), 5)
        .handle;
    manager.new_read_progress(1, 1);
    let call = manager.get_virtual_file(
        5,
        VirtualFileRequest {
            item_handle: 2,
            reader_handle: reader,
            format: "text/plain".to_string(),
            progress_id: 41,
            target_folder: "/tmp/out".to_string(),
        },
    );
    assert_eq!(
        call,
        Ok(ReaderCall::GetVirtualFileForItem {
            reader,
            item_handle: 2,
            format: "text/plain".to_string(),
            target_folder: "/tmp/out".to_string(),
            progress: ChannelId(1),
        })
    );
    assert_eq!(manager.progress_channel(5, 41), Some(ChannelId(1)));
}

#[test]
fn dispose_request_is_idempotent() {
    let mut manager = Manager::new();
    let reader = manager
        .register_platform_reader(Rc::new(FixedReader { items: vec![] }), 5)
        .handle;
    assert_eq!(manager.on_method_call(5, Request::DisposeReader(reader)), Ok(ReaderCall::Done));
    assert_eq!(manager.on_method_call(5, Request::DisposeReader(reader)), Ok(ReaderCall::Done));
    assert_eq!(
        manager.on_method_call(5, Request::DisposeReader(DataReaderId(99))),
        Ok(ReaderCall::Done)
    );
    assert!(!manager.has_reader(reader));
}

#[test]
fn reader_data_progress_and_disposal() {
    let mut manager = Manager::new();
    let registered =
        manager.register_platform_reader(Rc::new(FixedReader { items: vec![11, 12, 13] }), 77);
    assert_eq!(registered.handle, DataReaderId(1));

    let call = manager.on_method_call(77, Request::GetItems(DataReaderId(1))).unwrap();
    assert_eq!(call, ReaderCall::GetItems { reader: DataReaderId(1) });
    assert_eq!(manager.get_reader(DataReaderId(1)).unwrap().items, vec![11, 12, 13]);

    let call = manager
        .on_method_call(
            77,
            Request::GetItemData(ItemDataRequest {
                item_handle: 12,
                reader_handle: DataReaderId(1),
                format: "text/plain".to_string(),
                progress_id: 7,
            }),
        )
        .unwrap();
    let progress = match call {
        ReaderCall::GetDataForItem { reader, item_handle, format, progress } => {
            assert_eq!(reader, DataReaderId(1));
            assert_eq!(item_handle, 12);
            assert_eq!(format, "text/plain");
            progress
        }
        other => panic!("unexpected call {:?}", other),
    };

    let notice = manager.report_progress(progress, Some(0.5f64)).unwrap();
    assert_eq!(notice.args.method(), "updateProgress");
    assert_eq!(
        notice,
        Notification {
            isolate_id: 77,
            args: ProgressUpdate { progress_id: 7, fraction: Some(0.5) },
        }
    );

    assert_eq!(
        manager.on_method_call(77, Request::DisposeReader(DataReaderId(1))),
        Ok(ReaderCall::Done)
    );
    assert_eq!(
        manager.on_method_call(77, Request::GetItems(DataReaderId(1))),
        Err(NativeExtensionsError::ReaderNotFound)
    );
    assert!(manager.is_in_flight(progress));
}

#[test]
fn virtual_file_fetch_is_cancelled_once() {
    let counter = Rc::new(Cell::new(0));
    let mut manager = Manager::new();
    let reader = manager
        .register_platform_reader(Rc::new(FixedReader { items: vec![1] }), 77)
        .handle;
    let call = manager
        .on_method_call(
            77,
            Request::GetVirtualFile(VirtualFileRequest {
                item_handle: 1,
                reader_handle: reader,
                format: "application/pdf".to_string(),
                progress_id: 3,
                target_folder: "/tmp".to_string(),
            }),
        )
        .unwrap();
    let progress = match call {
        ReaderCall::GetVirtualFileForItem { progress, .. } => progress,
        other => panic!("unexpected call {:?}", other),
    };
    assert_eq!(
        manager.set_cancellation_handler(progress, Some(counting(&counter))),
        Some(Notification {
            isolate_id: 77,
            args: SetProgressCancellable { progress_id: 3, cancellable: true },
        })
    );
    assert_eq!(manager.progress_channel(77, 3), Some(progress));

    assert_eq!(manager.on_method_call(77, Request::CancelProgress(3)), Ok(ReaderCall::Done));
    assert_eq!(counter.get(), 1);
    assert_eq!(manager.progress_channel(77, 3), None);
    assert!(!manager.is_cancellable(progress));

    assert_eq!(manager.on_method_call(77, Request::CancelProgress(3)), Ok(ReaderCall::Done));
    assert_eq!(counter.get(), 1);
    assert_eq!(manager.progress_channel(77, 3), None);
    assert!(manager.is_cancelled(progress));
}

#[test]
fn notifications_of_a_fetch_in_order() {
    let counter = Rc::new(Cell::new(0));
    let mut manager = Manager::new();
    let progress = manager.new_read_progress(77, 7);
    let first = manager.set_cancellation_handler(progress, Some(counting(&counter))).unwrap();
    let second = manager.report_progress(progress, Some(0.5f64)).unwrap();
    assert_eq!(first.args.method(), "setProgressCancellable");
    assert_eq!(
        first,
        Notification {
            isolate_id: 77,
            args: SetProgressCancellable { progress_id: 7, cancellable: true },
        }
    );
    assert_eq!(second.args.method(), "updateProgress");
    assert_eq!(
        second,
        Notification {
            isolate_id: 77,
            args: ProgressUpdate { progress_id: 7, fraction: Some(0.5) },
        }
    );
    assert_eq!(counter.get(), 0);
    assert!(manager.is_cancellable(progress));
}

#[test]
fn cancel_request_of_another_caller_does_nothing() {
    let counter = Rc::new(Cell::new(0));
    let mut manager = Manager::new();
    let progress = manager.new_read_progress(77, 3);
    manager.set_cancellation_handler(progress, Some(counting(&counter)));
    assert_eq!(manager.on_method_call(78, Request::CancelProgress(3)), Ok(ReaderCall::Done));
    assert_eq!(counter.get(), 0);
    assert_eq!(manager.progress_channel(77, 3), Some(progress));
    assert!(manager.is_cancellable(progress));
}

#[test]
fn disposal_does_not_cancel_operations_in_flight() {
    let counter = Rc::new(Cell::new(0));
    let mut manager = Manager::new();
    let reader = manager
        .register_platform_reader(Rc::new(FixedReader { items: vec![1] }), 77)
        .handle;
    let call = manager.get_item_data(
        77,
        ItemDataRequest {
            item_handle: 1,
            reader_handle: reader,
            format: "text/plain".to_string(),
            progress_id: 5,
        },
    );
    let progress = match call {
        Ok(ReaderCall::GetDataForItem { progress, .. }) => progress,
        other => panic!("unexpected answer {:?}", other),
    };
    manager.set_cancellation_handler(progress, Some(counting(&counter)));
    assert_eq!(manager.dispose_reader(reader), Ok(()));
    assert_eq!(counter.get(), 0);
    assert!(manager.is_cancellable(progress));
    assert_eq!(manager.progress_channel(77, 5), Some(progress));
}
