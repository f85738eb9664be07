//! Web apps in windows of their own, each with an icon in the system tray.
//!
//! One half launches, installs, updates and uninstalls web apps ([`launch`], [`install`],
//! [`update`], [`uninstall`]) on what is kept on disk ([`storage`]). The other half is the tray of
//! one running web app: what it is started with ([`options`]), what it shows and does ([`tray`]),
//! how it watches the files of its web app ([`lifecycle`]), how it tells another tray ([`process`]),
//! and how it has KWin hide and show the window ([`kwin`]).
//!
//! Everything here computes. What is to be done in the world comes out as a value: an action that
//! the program is to perform before it hands back what came of it, or a list of [`effects`].

pub mod command_laws;
pub mod deed_laws;
pub mod effects;
pub mod ids;
pub mod install;
pub mod kwin;
pub mod kwin_laws;
pub mod launch;
pub mod launch_laws;
pub mod lifecycle;
pub mod link;
pub mod options;
pub mod options_laws;
pub mod paths;
pub mod process;
pub mod runtime;
pub mod storage;
pub mod storage_laws;
pub mod text;
pub mod text_laws;
pub mod tray;
pub mod tray_laws;
pub mod uninstall;
pub mod update;
pub mod view_laws;
