//! Plugin host runtime for an interactive launcher: the item and action model
//! shared with plugins, prefix routing over the loaded plugins, the activation
//! frequency table, the capability vocabulary handed to sandboxed guests, and
//! the request/response protocol of out-of-process plugins.
pub mod activation;
pub mod capability;
pub mod item;
pub mod plugin;
pub mod protocol;
pub mod registry;
pub mod route;
pub mod server;
pub mod wire;

pub use activation::{ActivationRecord, ActivationStore};
pub use capability::{DeferredAction, DeferredResult, HostError, HostErrorKind, IoError, ProcessOutput};
pub use item::{Action, Input, ListItem, SelectionRange};
pub use plugin::Plugin;
pub use protocol::{ErrorChain, StartupLine};
pub use registry::{DispatchError, Host, PluginEvent, Step, UiEvent};
pub use route::RouteStep;
