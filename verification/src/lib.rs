pub mod error;
pub mod ids;
pub mod laws;
pub mod manager;
pub mod model;
pub mod next_id;
pub mod progress;
pub mod progress_registry;
pub mod request;

pub use error::{NativeExtensionsError, NativeExtensionsResult, PlatformError};
pub use ids::{ChannelId, DataReaderId, IsolateId};
pub use manager::DataReaderManager;
pub use model::{FinalizationToken, ReaderEntry, RegisteredDataReader};
pub use next_id::NextId;
pub use progress::{Notification, ProgressUpdate, ReadProgress, SetProgressCancellable};
pub use request::{Method, ReaderCall, Request};
