//! The configuration document and the records it is made of, each with the
//! mathematical value that the contracts of this crate speak about.

use vstd::prelude::*;

verus! {

/// A directory of the file system and the name under which clients see it.
#[derive(Debug, PartialEq, Eq)]
pub struct MountPoint {
    pub source: String,
    pub name: String,
}

/// The value of a [`MountPoint`].
pub struct MountPointView {
    pub source: Seq<char>,
    pub name: Seq<char>,
}

impl View for MountPoint {
    type V = MountPointView;

    open spec fn view(&self) -> MountPointView {
        MountPointView { source: self.source@, name: self.name@ }
    }
}

impl Clone for MountPoint {
    fn clone(&self) -> (copy: MountPoint)
        ensures
            copy == *self,
    {
        MountPoint { source: self.source.clone(), name: self.name.clone() }
    }
}

/// A user as a document names one: the password is in plain text on the way
/// in, and empty on the way out.
#[derive(Debug, PartialEq, Eq)]
pub struct ConfigUser {
    pub name: String,
    pub password: String,
}

/// The value of a [`ConfigUser`].
pub struct ConfigUserView {
    pub name: Seq<char>,
    pub password: Seq<char>,
}

impl View for ConfigUser {
    type V = ConfigUserView;

    open spec fn view(&self) -> ConfigUserView {
        ConfigUserView { name: self.name@, password: self.password@ }
    }
}

impl Clone for ConfigUser {
    fn clone(&self) -> (copy: ConfigUser)
        ensures
            copy == *self,
    {
        ConfigUser { name: self.name.clone(), password: self.password.clone() }
    }
}

/// The account at the dynamic DNS service: one record, never a list.
#[derive(Debug, PartialEq, Eq)]
pub struct DDNSConfig {
    pub host: String,
    pub username: String,
    pub password: String,
}

/// The value of a [`DDNSConfig`].
pub struct DDNSConfigView {
    pub host: Seq<char>,
    pub username: Seq<char>,
    pub password: Seq<char>,
}

impl View for DDNSConfig {
    type V = DDNSConfigView;

    open spec fn view(&self) -> DDNSConfigView {
        DDNSConfigView { host: self.host@, username: self.username@, password: self.password@ }
    }
}

impl Clone for DDNSConfig {
    fn clone(&self) -> (copy: DDNSConfig)
        ensures
            copy == *self,
    {
        DDNSConfig {
            host: self.host.clone(),
            username: self.username.clone(),
            password: self.password.clone(),
        }
    }
}

/// The values of the mount points of a list, in its order.
pub open spec fn mount_points_view(list: Seq<MountPoint>) -> Seq<MountPointView> {
    list.map_values(|mount_point: MountPoint| mount_point@)
}

/// The values of the users of a list, in its order.
pub open spec fn users_view(list: Seq<ConfigUser>) -> Seq<ConfigUserView> {
    list.map_values(|user: ConfigUser| user@)
}

/// The values of the strings of a list, in its order.
pub open spec fn strings_view(list: Seq<String>) -> Seq<Seq<char>> {
    list.map_values(|text: String| text@)
}

/// The row of global settings. There is one such row; `id` is the number it
/// is kept under, which no command changes.
#[derive(Debug, PartialEq, Eq)]
pub struct MiscSettings {
    pub id: i32,
    pub auth_secret: String,
    pub index_sleep_duration_seconds: i32,
    pub index_album_art_pattern: String,
}

/// The value of a [`MiscSettings`] row.
pub struct MiscSettingsView {
    pub id: int,
    pub auth_secret: Seq<char>,
    pub index_sleep_duration_seconds: int,
    pub index_album_art_pattern: Seq<char>,
}

impl View for MiscSettings {
    type V = MiscSettingsView;

    open spec fn view(&self) -> MiscSettingsView {
        MiscSettingsView {
            id: self.id as int,
            auth_secret: self.auth_secret@,
            index_sleep_duration_seconds: self.index_sleep_duration_seconds as int,
            index_album_art_pattern: self.index_album_art_pattern@,
        }
    }
}

/// The configuration document. Each field may be left out, and a field that is
/// left out says nothing about the settings it stands for.
#[derive(Debug, PartialEq, Eq)]
pub struct Config {
    pub album_art_pattern: Option<String>,
    pub reindex_every_n_seconds: Option<i32>,
    pub mount_dirs: Option<Vec<MountPoint>>,
    pub users: Option<Vec<ConfigUser>>,
    pub ydns: Option<DDNSConfig>,
}

/// The value of a [`Config`].
pub struct ConfigView {
    pub album_art_pattern: Option<Seq<char>>,
    pub reindex_every_n_seconds: Option<int>,
    pub mount_dirs: Option<Seq<MountPointView>>,
    pub users: Option<Seq<ConfigUserView>>,
    pub ydns: Option<DDNSConfigView>,
}

impl View for Config {
    type V = ConfigView;

    open spec fn view(&self) -> ConfigView {
        ConfigView {
            album_art_pattern: match self.album_art_pattern {
                Some(pattern) => Some(pattern@),
                None => None,
            },
            reindex_every_n_seconds: match self.reindex_every_n_seconds {
                Some(seconds) => Some(seconds as int),
                None => None,
            },
            mount_dirs: match self.mount_dirs {
                Some(list) => Some(mount_points_view(list@)),
                None => None,
            },
            users: match self.users {
                Some(list) => Some(users_view(list@)),
                None => None,
            },
            ydns: match self.ydns {
                Some(account) => Some(account@),
                None => None,
            },
        }
    }
}

impl ConfigView {
    /// Every field of the document is there.
    pub open spec fn is_complete(self) -> bool {
        &&& self.album_art_pattern is Some
        &&& self.reindex_every_n_seconds is Some
        &&& self.mount_dirs is Some
        &&& self.users is Some
        &&& self.ydns is Some
    }
}

/// Why a document was turned away, or a call on the store given up.
#[derive(Debug, PartialEq, Eq)]
pub enum ConfigError {
    /// The text is no document; the message is that of the format's parser.
    ParseError(String),
    /// The source of a mount point has no form on this platform.
    InvalidPath,
    /// The store refused a command or a query; the message is the store's.
    StoreError(String),
}

} // verus!
