//! The persisted settings as plain values, and the commands that change them.
//!
//! A store keeps four things: the row of global settings, the mount points,
//! the users and the account at the dynamic DNS service. [`StoreCommand`] names
//! the statements by which a document is written into a store, and
//! [`execute_spec`] says what each of them leaves behind where it succeeds.
//! [`Store`] holds the same four things in memory and carries the commands
//! out, so that what a sequence of commands does can be run as well as proved.

use vstd::prelude::*;
use crate::document::{
    mount_points_view, strings_view, ConfigUser, ConfigUserView, DDNSConfig, DDNSConfigView,
    MiscSettings, MiscSettingsView, MountPoint, MountPointView,
};

verus! {

/// One statement against the store.
#[derive(Debug, PartialEq, Eq)]
pub enum StoreCommand {
    /// Delete every mount point.
    DeleteMountPoints,
    /// Add the given mount points, in their order, behind those that are there.
    InsertMountPoints(Vec<MountPoint>),
    /// Delete every user.
    DeleteUsers,
    /// Add one user behind those that are there. The password is in plain
    /// text: whoever runs the command has the credentials issued for it.
    InsertUser(ConfigUser),
    /// Set the delay between two scans of the library, in seconds.
    SetSleepDuration(i32),
    /// Set the pattern by which album art is found.
    SetAlbumArtPattern(String),
    /// Set host, user name and password of the dynamic DNS account.
    UpdateDdns(DDNSConfig),
}

/// The value of a [`StoreCommand`].
pub enum StoreCommandView {
    DeleteMountPoints,
    InsertMountPoints(Seq<MountPointView>),
    DeleteUsers,
    InsertUser(ConfigUserView),
    SetSleepDuration(int),
    SetAlbumArtPattern(Seq<char>),
    UpdateDdns(DDNSConfigView),
}

impl View for StoreCommand {
    type V = StoreCommandView;

    open spec fn view(&self) -> StoreCommandView {
        match *self {
            StoreCommand::DeleteMountPoints => StoreCommandView::DeleteMountPoints,
            StoreCommand::InsertMountPoints(list) => StoreCommandView::InsertMountPoints(
                mount_points_view(list@),
            ),
            StoreCommand::DeleteUsers => StoreCommandView::DeleteUsers,
            StoreCommand::InsertUser(user) => StoreCommandView::InsertUser(user@),
            StoreCommand::SetSleepDuration(seconds) => StoreCommandView::SetSleepDuration(
                seconds as int,
            ),
            StoreCommand::SetAlbumArtPattern(pattern) => StoreCommandView::SetAlbumArtPattern(
                pattern@,
            ),
            StoreCommand::UpdateDdns(account) => StoreCommandView::UpdateDdns(account@),
        }
    }
}

/// The values of the commands of a list, in its order.
pub open spec fn commands_view(list: Seq<StoreCommand>) -> Seq<StoreCommandView> {
    list.map_values(|command: StoreCommand| command@)
}

/// What a store holds. Of a user it is the name that counts here: the
/// credentials are issued, and kept, outside.
pub struct StoreView {
    pub misc: MiscSettingsView,
    pub mount_points: Seq<MountPointView>,
    pub user_names: Seq<Seq<char>>,
    pub ddns: DDNSConfigView,
}

/// The store after one command that succeeded.
pub open spec fn execute_spec(store: StoreView, command: StoreCommandView) -> StoreView {
    match command {
        StoreCommandView::DeleteMountPoints => StoreView { mount_points: Seq::empty(), ..store },
        StoreCommandView::InsertMountPoints(list) => StoreView {
            mount_points: store.mount_points + list,
            ..store
        },
        StoreCommandView::DeleteUsers => StoreView { user_names: Seq::empty(), ..store },
        StoreCommandView::InsertUser(user) => StoreView {
            user_names: store.user_names.push(user.name),
            ..store
        },
        StoreCommandView::SetSleepDuration(seconds) => StoreView {
            misc: MiscSettingsView { index_sleep_duration_seconds: seconds, ..store.misc },
            ..store
        },
        StoreCommandView::SetAlbumArtPattern(pattern) => StoreView {
            misc: MiscSettingsView { index_album_art_pattern: pattern, ..store.misc },
            ..store
        },
        StoreCommandView::UpdateDdns(account) => StoreView { ddns: account, ..store },
    }
}

/// The store after a sequence of commands that all succeeded, first to last.
pub open spec fn run_spec(store: StoreView, commands: Seq<StoreCommandView>) -> StoreView
    decreases commands.len(),
{
    if commands.len() == 0 {
        store
    } else {
        execute_spec(run_spec(store, commands.drop_last()), commands.last())
    }
}

/// Running two sequences of commands one after the other is running their
/// concatenation.
pub proof fn lemma_run_concat(
    store: StoreView,
    first: Seq<StoreCommandView>,
    second: Seq<StoreCommandView>,
)
    ensures
        run_spec(store, first + second) == run_spec(run_spec(store, first), second),
    decreases second.len(),
{
    if second.len() == 0 {
        assert(first + second =~= first);
    } else {
        assert((first + second).drop_last() =~= first + second.drop_last());
        lemma_run_concat(store, first, second.drop_last());
    }
}

/// Running a single command is executing it.
pub proof fn lemma_run_one(store: StoreView, command: StoreCommandView)
    ensures
        run_spec(store, seq![command]) == execute_spec(store, command),
{
    assert(seq![command].drop_last() =~= Seq::<StoreCommandView>::empty());
    assert(run_spec(store, seq![command].drop_last()) == store);
}

/// No command touches the secret of the settings row or the number it is kept
/// under, so that neither changes however many commands run.
pub proof fn lemma_run_keeps_secret(store: StoreView, commands: Seq<StoreCommandView>)
    ensures
        run_spec(store, commands).misc.id == store.misc.id,
        run_spec(store, commands).misc.auth_secret == store.misc.auth_secret,
    decreases commands.len(),
{
    if commands.len() > 0 {
        lemma_run_keeps_secret(store, commands.drop_last());
    }
}

/// Whether a command writes to the mount points.
pub open spec fn writes_mount_points(command: StoreCommandView) -> bool {
    command is DeleteMountPoints || command is InsertMountPoints
}

/// Whether a command writes to the users.
pub open spec fn writes_users(command: StoreCommandView) -> bool {
    command is DeleteUsers || command is InsertUser
}

/// Whether a command writes to the row of global settings.
pub open spec fn writes_settings(command: StoreCommandView) -> bool {
    command is SetSleepDuration || command is SetAlbumArtPattern
}

/// Whether a command writes to the dynamic DNS account.
pub open spec fn writes_ddns(command: StoreCommandView) -> bool {
    command is UpdateDdns
}

/// What no command of a sequence writes to is after the sequence as it was
/// before.
pub proof fn lemma_run_leaves_unwritten(store: StoreView, commands: Seq<StoreCommandView>)
    ensures
        (forall|i: int| 0 <= i < commands.len() ==> !writes_mount_points(#[trigger] commands[i]))
            ==> run_spec(store, commands).mount_points == store.mount_points,
        (forall|i: int| 0 <= i < commands.len() ==> !writes_users(#[trigger] commands[i]))
            ==> run_spec(store, commands).user_names == store.user_names,
        (forall|i: int| 0 <= i < commands.len() ==> !writes_settings(#[trigger] commands[i]))
            ==> run_spec(store, commands).misc == store.misc,
        (forall|i: int| 0 <= i < commands.len() ==> !writes_ddns(#[trigger] commands[i]))
            ==> run_spec(store, commands).ddns == store.ddns,
    decreases commands.len(),
{
    if commands.len() > 0 {
        let front = commands.drop_last();
        lemma_run_leaves_unwritten(store, front);
        assert(forall|i: int| 0 <= i < front.len() ==> front[i] == commands[i]);
        assert(commands.last() == commands[commands.len() - 1]);
    }
}

/// The store after a refusal: of a sequence of commands whose command at
/// place `refused` the store turned down, those before it have run and the
/// others have not.
pub open spec fn run_until_spec(
    store: StoreView,
    commands: Seq<StoreCommandView>,
    refused: int,
) -> StoreView {
    run_spec(store, commands.take(refused))
}

/// The four things that a store keeps, held in memory.
#[derive(Debug, PartialEq, Eq)]
pub struct Store {
    pub misc: MiscSettings,
    pub mount_points: Vec<MountPoint>,
    pub user_names: Vec<String>,
    pub ddns: DDNSConfig,
}

impl View for Store {
    type V = StoreView;

    open spec fn view(&self) -> StoreView {
        StoreView {
            misc: self.misc@,
            mount_points: mount_points_view(self.mount_points@),
            user_names: strings_view(self.user_names@),
            ddns: self.ddns@,
        }
    }
}

impl Store {
    /// A store with the given settings and account, and with neither mount
    /// points nor users.
    pub fn new(misc: MiscSettings, ddns: DDNSConfig) -> (store: Store)
        ensures
            store@ == (StoreView {
                misc: misc@,
                mount_points: Seq::empty(),
                user_names: Seq::empty(),
                ddns: ddns@,
            }),
    {
        let store = Store { misc, mount_points: Vec::new(), user_names: Vec::new(), ddns };
        assert(store@.mount_points =~= Seq::empty());
        assert(store@.user_names =~= Seq::empty());
        store
    }

    /// Carries one command out.
    pub fn execute(&mut self, command: &StoreCommand)
        ensures
            final(self)@ == execute_spec(old(self)@, command@),
    {
        match command {
            StoreCommand::DeleteMountPoints => {
                self.mount_points = Vec::new();
                assert(self@.mount_points =~= Seq::empty());
            },
            StoreCommand::InsertMountPoints(list) => {
                let mut i: usize = 0;
                while i < list.len()
                    invariant
                        i <= list.len(),
                        self.misc == old(self).misc,
                        self.user_names == old(self).user_names,
                        self.ddns == old(self).ddns,
                        mount_points_view(self.mount_points@) == old(self)@.mount_points
                            + mount_points_view(list@.take(i as int)),
                    decreases list.len() - i,
                {
                    let ghost before = self.mount_points@;
                    self.mount_points.push(list[i].clone());
                    assert(mount_points_view(self.mount_points@) =~= mount_points_view(
                        before,
                    ).push(list@[i as int]@));
                    assert(mount_points_view(list@.take(i + 1)) =~= mount_points_view(
                        list@.take(i as int),
                    ).push(list@[i as int]@));
                    assert(mount_points_view(self.mount_points@) =~= old(self)@.mount_points
                        + mount_points_view(list@.take(i + 1)));
                    i += 1;
                }
                assert(list@.take(list.len() as int) =~= list@);
            },
            StoreCommand::DeleteUsers => {
                self.user_names = Vec::new();
                assert(self@.user_names =~= Seq::empty());
            },
            StoreCommand::InsertUser(user) => {
                let ghost before = self.user_names@;
                self.user_names.push(user.name.clone());
                assert(strings_view(self.user_names@) =~= strings_view(before).push(user.name@));
            },
            StoreCommand::SetSleepDuration(seconds) => {
                self.misc.index_sleep_duration_seconds = *seconds;
            },
            StoreCommand::SetAlbumArtPattern(pattern) => {
                self.misc.index_album_art_pattern = pattern.clone();
            },
            StoreCommand::UpdateDdns(account) => {
                self.ddns = account.clone();
            },
        }
    }

    /// Carries a sequence of commands out, first to last.
    pub fn run(&mut self, commands: &Vec<StoreCommand>)
        ensures
            final(self)@ == run_spec(old(self)@, commands_view(commands@)),
    {
        let mut i: usize = 0;
        while i < commands.len()
            invariant
                i <= commands.len(),
                self@ == run_spec(old(self)@, commands_view(commands@.take(i as int))),
            decreases commands.len() - i,
        {
            self.execute(&commands[i]);
            assert(commands_view(commands@.take(i + 1)).drop_last() =~= commands_view(
                commands@.take(i as int),
            ));
            assert(commands_view(commands@.take(i + 1)).last() == commands@[i as int]@);
            i += 1;
        }
        assert(commands@.take(commands.len() as int) =~= commands@);
    }
}

} // verus!
