//! What the application decides apart from drawing and from talking to a
//! server: its notifications, the paging of its lists, and the plain states
//! that its pages show.

use crate::config::{is_default_named, Config, ServerConfig};
use crate::pages::browser::{decimal, decimal_text};
use vstd::prelude::*;
use vstd::string::StringExecFns;

verus! {

/// What the validation of the settings found missing on the server.
#[derive(Debug, Clone, Copy, PartialEq, Eq, Structural)]
pub struct ValidationMissing {
    /// Whether the tenant exists.
    pub tenant_exists: bool,
    /// Whether the database exists.
    pub database_exists: bool,
}

impl ValidationMissing {
    /// What a validation reports: nothing if tenant and database both exist,
    /// else which of them do.
    pub fn from_status(tenant_exists: bool, database_exists: bool) -> (missing: Option<Self>)
        ensures
            missing == if tenant_exists && database_exists {
                None
            } else {
                Some(ValidationMissing { tenant_exists, database_exists })
            },
    {
        if tenant_exists && database_exists {
            None
        } else {
            Some(ValidationMissing { tenant_exists, database_exists })
        }
    }
}

/// How far saving the settings has come.
#[derive(Debug, Clone)]
pub enum SettingsStatus {
    /// Nothing is going on.
    Idle,
    /// The settings are being validated against the server.
    Validating,
    /// The settings are saved.
    Saved,
    /// Saving failed.
    Error(String),
    /// The tenant, the database or both are missing and can be created.
    MissingResources(ValidationMissing),
    /// The missing tenant or database is being created.
    Creating,
}

impl Default for SettingsStatus {
    fn default() -> (status: Self)
        ensures
            status is Idle,
    {
        SettingsStatus::Idle
    }
}

/// The state of the connection to the active server.
#[derive(Debug, Clone)]
pub enum ConnectionStatus {
    /// Not connected.
    Disconnected,
    /// A request is under way.
    Connecting,
    /// The last request succeeded.
    Connected,
    /// The last request failed.
    Error(String),
}

impl Default for ConnectionStatus {
    fn default() -> (status: Self)
        ensures
            status is Disconnected,
    {
        ConnectionStatus::Disconnected
    }
}

impl ConnectionStatus {
    /// The status after a request ended with `result`.
    pub fn after<T>(result: &Result<T, String>) -> (status: Self)
        ensures
            match result {
                Ok(_) => status is Connected,
                Err(e) => status == ConnectionStatus::Error(*e),
            },
    {
        match result {
            Ok(_) => ConnectionStatus::Connected,
            Err(e) => ConnectionStatus::Error(e.clone()),
        }
    }
}

/// The page shown.
#[derive(Debug, Clone, Copy, PartialEq, Eq, Structural)]
pub enum Page {
    /// The tree browser.
    Browser,
    /// The server's dashboard.
    Dashboard,
    /// The list of collections.
    Collections,
    /// The settings.
    Settings,
}

impl Default for Page {
    fn default() -> (page: Self)
        ensures
            page == Page::Browser,
    {
        Page::Browser
    }
}

/// The page shown in the context drawer.
#[derive(Debug, Clone, Copy, PartialEq, Eq, Structural)]
pub enum ContextPage {
    /// About the application.
    About,
    /// The details of a document.
    DocumentDetails,
}

impl Default for ContextPage {
    fn default() -> (page: Self)
        ensures
            page == ContextPage::About,
    {
        ContextPage::About
    }
}

/// An entry of the menu.
#[derive(Debug, Clone, Copy, PartialEq, Eq, Structural)]
pub enum MenuAction {
    /// Shows the about page.
    About,
}

impl MenuAction {
    /// The context page that the entry opens.
    pub fn context_page(&self) -> (page: ContextPage)
        ensures
            page == ContextPage::About,
    {
        match self {
            MenuAction::About => ContextPage::About,
        }
    }
}

/// The window's title: the application's name, then a dash and the
/// active page's name if a page is active.
pub fn window_title(app_title: &str, page: Option<&str>) -> (title: String)
    ensures
        title@ == match page {
            Some(name) => app_title@ + " \u{2014} "@ + name@,
            None => app_title@,
        },
{
    match page {
        Some(name) => app_title.to_owned().concat(" \u{2014} ").concat(name),
        None => app_title.to_owned(),
    }
}

/// How serious a notification is.
#[derive(Debug, Clone, Copy, PartialEq, Eq, Structural)]
pub enum NotificationLevel {
    /// For information.
    Info,
    /// Something succeeded.
    Success,
    /// Something may be wrong.
    Warning,
    /// Something failed.
    Error,
}

/// A message shown to the user until dismissed.
#[derive(Debug, PartialEq, Eq)]
pub struct Notification {
    /// The number by which it is dismissed.
    pub id: u32,
    /// How serious it is.
    pub level: NotificationLevel,
    /// The title.
    pub title: String,
    /// The text.
    pub message: String,
}

impl Clone for Notification {
    fn clone(&self) -> (copy: Self)
        ensures
            copy == *self,
    {
        Notification {
            id: self.id,
            level: self.level,
            title: self.title.clone(),
            message: self.message.clone(),
        }
    }
}

impl Notification {
    /// What is copied to the clipboard, for contracts.
    pub open spec fn clip(&self) -> Seq<char> {
        self.title@ + ": "@ + self.message@
    }

    /// What is copied to the clipboard: the title, a colon and the text.
    pub fn clipboard_text(&self) -> (text: String)
        ensures
            text@ == self.clip(),
    {
        self.title.clone().concat(": ").concat(self.message.as_str())
    }
}

/// `list` without the notifications numbered `id`, in the same order.
pub open spec fn without_id(list: Seq<Notification>, id: u32) -> Seq<Notification>
    decreases list.len(),
{
    if list.len() == 0 {
        list
    } else if list.last().id == id {
        without_id(list.drop_last(), id)
    } else {
        without_id(list.drop_last(), id).push(list.last())
    }
}

/// `k` is the position of the first notification of `list` numbered `id`.
pub open spec fn is_first_with_id(list: Seq<Notification>, id: u32, k: int) -> bool {
    &&& 0 <= k < list.len()
    &&& list[k].id == id
    &&& forall|j: int| 0 <= j < k ==> (#[trigger] list[j]).id != id
}

/// The notifications on show, and the number given to the last one.
#[derive(Debug, Clone)]
pub struct Notifications {
    /// The notifications, oldest first.
    pub list: Vec<Notification>,
    /// The number of the notification added last; 0 before the first.
    pub counter: u32,
}

impl Default for Notifications {
    fn default() -> (shown: Self)
        ensures
            shown.list@.len() == 0,
            shown.counter == 0,
    {
        Notifications { list: Vec::new(), counter: 0 }
    }
}

impl Notifications {
    /// Adds a notification under the next number, and returns that number.
    pub fn add(&mut self, level: NotificationLevel, title: String, message: String) -> (id: u32)
        requires
            old(self).counter < u32::MAX,
        ensures
            id == old(self).counter + 1,
            final(self).counter == id,
            final(self).list@ == old(self).list@.push(Notification { id, level, title, message }),
    {
        self.counter += 1;
        let id: u32 = self.counter;
        self.list.push(Notification { id, level, title, message });
        id
    }

    /// Removes the notifications numbered `id`.
    pub fn dismiss(&mut self, id: u32)
        ensures
            final(self).list@ == without_id(old(self).list@, id),
            final(self).counter == old(self).counter,
    {
        let mut kept: Vec<Notification> = Vec::new();
        let mut i: usize = 0;
        while i < self.list.len()
            invariant
                i <= self.list@.len(),
                self.list == old(self).list,
                self.counter == old(self).counter,
                kept@ == without_id(self.list@.take(i as int), id),
            decreases self.list.len() - i,
        {
            assert(self.list@.take(i + 1).drop_last() =~= self.list@.take(i as int));
            if self.list[i].id != id {
                kept.push(self.list[i].clone());
            }
            i += 1;
        }
        assert(self.list@.take(i as int) =~= self.list@);
        self.list = kept;
    }

    /// The clipboard text of the first notification numbered `id`.
    pub fn copy_text(&self, id: u32) -> (text: Option<String>)
        ensures
            match text {
                Some(t) => exists|k: int|
                    is_first_with_id(self.list@, id, k) && t@ == self.list@[k].clip(),
                None => forall|k: int| 0 <= k < self.list@.len() ==> self.list@[k].id != id,
            },
    {
        let mut i: usize = 0;
        while i < self.list.len()
            invariant
                i <= self.list@.len(),
                forall|j: int| 0 <= j < i ==> (#[trigger] self.list@[j]).id != id,
            decreases self.list.len() - i,
        {
            if self.list[i].id == id {
                assert(is_first_with_id(self.list@, id, i as int));
                return Some(self.list[i].clipboard_text());
            }
            i += 1;
        }
        None
    }
}

/// The number of pages that `total` items fill at `per_page` items a page.
pub open spec fn page_count(total: nat, per_page: nat) -> nat
    recommends
        per_page > 0,
{
    ((total + per_page - 1) / (per_page as int)) as nat
}

/// Which page of a list is shown.
#[derive(Debug, Clone, Copy, PartialEq, Eq, Structural)]
pub struct Pager {
    /// The page shown, counted from 0.
    pub page: usize,
    /// The items on a page.
    pub per_page: usize,
}

impl Pager {
    /// The first page, at `per_page` items a page.
    pub fn new(per_page: usize) -> (pager: Self)
        ensures
            pager.page == 0,
            pager.per_page == per_page,
    {
        Pager { page: 0, per_page }
    }

    /// The number of pages that `total` items fill.
    pub fn total_pages(&self, total: usize) -> (pages: usize)
        requires
            self.per_page > 0,
            total + self.per_page <= usize::MAX,
        ensures
            pages == page_count(total as nat, self.per_page as nat),
    {
        (total + self.per_page - 1) / self.per_page
    }

    /// Goes to the next page of a list of `total` items, if there is one.
    pub fn next(&mut self, total: usize)
        requires
            old(self).per_page > 0,
            total + old(self).per_page <= usize::MAX,
        ensures
            final(self).per_page == old(self).per_page,
            final(self).page == if old(self).page + 1 < page_count(
                total as nat,
                old(self).per_page as nat,
            ) {
                (old(self).page + 1) as usize
            } else {
                old(self).page
            },
    {
        let total_pages: usize = self.total_pages(total);
        if self.page < total_pages && self.page + 1 < total_pages {
            self.page += 1;
        }
    }

    /// Goes to the page after this one, whatever the list holds.
    pub fn advance(&mut self)
        requires
            old(self).page < usize::MAX,
        ensures
            final(self).per_page == old(self).per_page,
            final(self).page == old(self).page + 1,
    {
        self.page += 1;
    }

    /// Goes to the page before this one, if there is one, and says whether
    /// it did.
    pub fn prev(&mut self) -> (moved: bool)
        ensures
            final(self).per_page == old(self).per_page,
            moved == (old(self).page > 0),
            final(self).page == if moved {
                (old(self).page - 1) as usize
            } else {
                old(self).page
            },
    {
        if self.page > 0 {
            self.page -= 1;
            true
        } else {
            false
        }
    }

    /// How many items come before the page shown.
    pub fn offset(&self) -> (offset: usize)
        requires
            self.page * self.per_page <= usize::MAX,
        ensures
            offset == self.page * self.per_page,
    {
        self.page * self.per_page
    }

    /// The positions of the items on the page shown, in a list of `total`
    /// items: from the page's first item up to, and not including, the next
    /// page's first or the end of the list.
    pub fn window(&self, total: usize) -> (range: (usize, usize))
        requires
            self.page * self.per_page <= total,
        ensures
            range.0 == self.page * self.per_page,
            range.1 as int == if range.0 + self.per_page <= total {
                range.0 + self.per_page
            } else {
                total as int
            },
            range.0 <= range.1 <= total,
    {
        let start: usize = self.page * self.per_page;
        let end: usize = if self.per_page <= total - start {
            start + self.per_page
        } else {
            total
        };
        (start, end)
    }
}

/// The settings as typed, before they are saved.
#[derive(Debug, PartialEq, Eq)]
pub struct SettingsForm {
    /// The server's display name.
    pub server_name_input: String,
    /// The server's URL.
    pub server_url_input: String,
    /// The authentication token.
    pub auth_token_input: String,
    /// Which header carries the token.
    pub auth_header_type_input: String,
    /// The tenant.
    pub tenant_input: String,
    /// The database.
    pub database_input: String,
    /// The index of the server that is edited.
    pub editing_server_index: Option<usize>,
}

/// The names of the configured servers, in order, as the server chooser shows them.
pub fn server_names(config: &Config) -> (names: Vec<String>)
    ensures
        names@.len() == config.servers@.len(),
        forall|i: int| 0 <= i < names@.len() ==> (#[trigger] names@[i]) == config.servers@[i].name,
{
    let mut names: Vec<String> = Vec::new();
    let mut i: usize = 0;
    while i < config.servers.len()
        invariant
            i <= config.servers@.len(),
            names@.len() == i,
            forall|j: int| 0 <= j < i ==> (#[trigger] names@[j]) == config.servers@[j].name,
        decreases config.servers.len() - i,
    {
        names.push(config.servers[i].name.clone());
        i += 1;
    }
    names
}

impl SettingsForm {
    /// The server configuration that the form describes.
    pub open spec fn typed(&self) -> ServerConfig {
        ServerConfig {
            name: self.server_name_input,
            server_url: self.server_url_input,
            auth_token: self.auth_token_input,
            auth_header_type: self.auth_header_type_input,
            tenant: self.tenant_input,
            database: self.database_input,
        }
    }

    /// The form shows the active server of `config`.
    pub open spec fn shows(&self, config: &Config) -> bool {
        &&& self.typed() == config.servers@[config.active_index()]
        &&& self.editing_server_index == Some(config.active_server)
    }

    /// The form for the active server of `config`.
    pub fn of(config: &Config) -> (form: Self)
        requires
            config.servers@.len() > 0,
        ensures
            form.shows(config),
    {
        let active = config.active_config();
        SettingsForm {
            server_name_input: active.name.clone(),
            server_url_input: active.server_url.clone(),
            auth_token_input: active.auth_token.clone(),
            auth_header_type_input: active.auth_header_type.clone(),
            tenant_input: active.tenant.clone(),
            database_input: active.database.clone(),
            editing_server_index: Some(config.active_server),
        }
    }

    /// Writes what was typed into the active server of `config`. An empty
    /// list of servers first gets a server, and an active index out of range
    /// is reset to the first server.
    pub fn save(&self, config: &mut Config)
        ensures
            old(config).servers@.len() == 0 ==> final(config).servers@ == seq![self.typed()]
                && final(config).active_server == 0,
            old(config).servers@.len() > 0 ==> final(config).servers@ == old(
                config,
            ).servers@.update(old(config).active_index(), self.typed())
                && final(config).active_server == old(config).active_index(),
    {
        let active = config.active_config_mut();
        active.name = self.server_name_input.clone();
        active.server_url = self.server_url_input.clone();
        active.auth_token = self.auth_token_input.clone();
        active.auth_header_type = self.auth_header_type_input.clone();
        active.tenant = self.tenant_input.clone();
        active.database = self.database_input.clone();
    }

    /// Makes the server at `index` the active one and shows it in the form,
    /// if there is such a server; else nothing changes.
    pub fn select_server(&mut self, config: &mut Config, index: usize) -> (selected: bool)
        ensures
            selected == (index < old(config).servers@.len()),
            final(config).servers == old(config).servers,
            selected ==> final(config).active_server == index && final(self).shows(final(config)),
            !selected ==> final(config).active_server == old(config).active_server && *final(self)
                == *old(self),
    {
        if config.switch_active_server(index) {
            *self = SettingsForm::of(config);
            true
        } else {
            false
        }
    }

    /// Adds a server with the default settings, named after its place in
    /// the list, makes it the active one and shows it in the form. Returns
    /// its index.
    pub fn add_new_server(&mut self, config: &mut Config) -> (index: usize)
        requires
            old(config).servers@.len() < usize::MAX,
        ensures
            index == old(config).servers@.len(),
            final(config).servers@.len() == index + 1,
            final(config).servers@.take(index as int) == old(config).servers@,
            is_default_named(
                final(config).servers@[index as int],
                "Server "@ + decimal((index + 1) as nat),
            ),
            final(config).active_server == index,
            final(self).shows(final(config)),
    {
        let new_name = "Server ".to_owned().concat(
            decimal_text(config.servers.len() + 1).as_str(),
        );
        let new_index = config.add_server(ServerConfig::new(new_name.as_str()));
        config.switch_active_server(new_index);
        *self = SettingsForm::of(config);
        assert(config.servers@.take(new_index as int) =~= old(config).servers@);
        new_index
    }

    /// Removes the server at `index`, unless it is the last one left or
    /// there is none at that index, and shows the server that is active
    /// afterwards in the form.
    pub fn delete_server(&mut self, config: &mut Config, index: usize) -> (removed: bool)
        ensures
            removed == (old(config).servers@.len() > 1 && index < old(config).servers@.len()),
            removed ==> final(config).servers@ == old(config).servers@.remove(index as int),
            removed ==> final(config).active_server as int == (if old(config).active_server
                >= old(config).servers@.len() - 1 {
                old(config).servers@.len() - 2
            } else if old(config).active_server > index {
                old(config).active_server - 1
            } else {
                old(config).active_server as int
            }),
            removed ==> final(self).shows(final(config)),
            !removed ==> *final(config) == *old(config) && *final(self) == *old(self),
    {
        if config.remove_server(index) {
            *self = SettingsForm::of(config);
            true
        } else {
            false
        }
    }
}

} // verus!
