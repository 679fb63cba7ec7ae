//! The local control plane of the observer shell: upstream settings, the
//! reverse-proxy target rules, the frame cache fed by the broadcast
//! extension, the command bus, and the global shortcut dispatcher.

pub mod capture;
pub mod cli;
pub mod commands;
pub mod dispatch;
pub mod frame_cache;
pub mod notifications;
pub mod overlay;
pub mod settings;
pub mod shortcuts;
