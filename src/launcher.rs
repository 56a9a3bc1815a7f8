use vstd::prelude::*;
use crate::command::{string_views, tokenize, tokens_of};
use crate::config::{config_of, entry_views, parse_config, same_values, AppConfig};
use crate::hotkey::{hotkey_of, parse_hotkey, HotkeySpec};
use crate::menu::{choice_for, lemma_stale_ids_unknown, ChoiceView, MenuChoice, MenuModel};
use crate::text::str_equal;

verus! {

/// How a chosen command is started.
pub enum Launch {
    /// The command has no tokens: nothing to do.
    Nothing,
    /// A single token: a file, folder or address handed to the shell to open.
    Open(String),
    /// An executable and its arguments, started as a detached process.
    Spawn(String, Vec<String>),
}

/// How a command with the given tokens is started.
pub open spec fn launch_matches(l: Launch, tokens: Seq<Seq<char>>) -> bool {
    match l {
        Launch::Nothing => tokens.len() == 0,
        Launch::Open(t) => tokens.len() == 1 && t@ == tokens[0],
        Launch::Spawn(exe, args) => tokens.len() > 1 && exe@ == tokens[0]
            && string_views(args@) == tokens.skip(1),
    }
}

/// Decides how to start a menu entry's command: split it into tokens; one token is opened,
/// several are an executable with arguments.
pub fn launch_plan(command: &str) -> (r: Launch)
    ensures
        launch_matches(r, tokens_of(command@)),
{
    let mut parts = tokenize(command);
    let ghost all = string_views(parts@);
    if parts.len() == 0 {
        Launch::Nothing
    } else if parts.len() == 1 {
        let t = parts.pop().unwrap();
        Launch::Open(t)
    } else {
        let exe = parts.remove(0);
        assert(string_views(parts@) == all.skip(1));
        Launch::Spawn(exe, parts)
    }
}

/// One notification from the global-shortcut service.
#[derive(Clone, Copy, Debug, PartialEq, Eq, Structural)]
pub struct HotkeyEvent {
    /// The key went down (not up).
    pub pressed: bool,
    /// The notification is for the shortcut registered now.
    pub matches_current: bool,
}

/// What one look at the shortcut notifications decides.
#[derive(Clone, Copy, Debug, PartialEq, Eq, Structural)]
pub struct HotkeyTick {
    /// Raise the anchor window and show the menu once.
    pub show_menu: bool,
    /// How many pending notifications this look takes off the queue.
    pub consumed: usize,
}

/// A notification starts a popup only while a shortcut is active and only on a press of it.
pub open spec fn accepts(active: Option<HotkeySpec>, e: HotkeyEvent) -> bool {
    active is Some && e.pressed && e.matches_current
}

/// One look at the queue: its first notification is taken; if it starts a popup, every
/// other pending notification is dropped with it.
pub open spec fn tick_of(active: Option<HotkeySpec>, q: Seq<HotkeyEvent>) -> (bool, nat) {
    if q.len() == 0 {
        (false, 0)
    } else if accepts(active, q[0]) {
        (true, q.len())
    } else {
        (false, 1)
    }
}

/// The number of popups that a queue of notifications leads to, looked at until empty.
pub open spec fn popup_count(active: Option<HotkeySpec>, q: Seq<HotkeyEvent>) -> nat
    decreases q.len(),
{
    if q.len() == 0 {
        0
    } else {
        let (show, n) = tick_of(active, q);
        (if show { 1nat } else { 0nat }) + popup_count(active, q.skip(n as int))
    }
}

/// Notifications that are pending together lead to one popup if any of them is an
/// accepted press, and to none otherwise: repeated presses are debounced.
pub proof fn lemma_debounce(active: Option<HotkeySpec>, q: Seq<HotkeyEvent>)
    ensures
        popup_count(active, q) == if exists|i: int| 0 <= i < q.len() && accepts(active, #[trigger] q[i]) {
            1nat
        } else {
            0nat
        },
    decreases q.len(),
{
    if q.len() > 0 {
        if accepts(active, q[0]) {
            assert(q.skip(q.len() as int).len() == 0);
            assert(popup_count(active, q.skip(q.len() as int)) == 0);
            assert(0 <= 0 < q.len() && accepts(active, q[0]));
        } else {
            lemma_debounce(active, q.skip(1));
            if exists|i: int| 0 <= i < q.len() && accepts(active, #[trigger] q[i]) {
                let i = choose|i: int| 0 <= i < q.len() && accepts(active, #[trigger] q[i]);
                assert(q.skip(1)[i - 1] == q[i]);
            }
            if exists|i: int| 0 <= i < q.skip(1).len() && accepts(active, #[trigger] q.skip(1)[i]) {
                let i = choose|i: int| 0 <= i < q.skip(1).len() && accepts(active, #[trigger] q.skip(1)[i]);
                assert(q[i + 1] == q.skip(1)[i]);
            }
        }
    }
}

/// What a reload asks of the global-shortcut service: first unregister, then register.
#[derive(Clone, Copy, Debug, PartialEq, Eq, Structural)]
pub struct HotkeyChange {
    pub unregister: Option<HotkeySpec>,
    pub register: Option<HotkeySpec>,
}

/// The state that the event loop owns: the current configuration, the shortcut parsed from
/// it, and the menu built from it.
pub struct Launcher {
    pub config: AppConfig,
    pub hotkey: Option<HotkeySpec>,
    pub menu: MenuModel,
}

/// Whether `l` holds the configuration that `text` describes and the menu of generation
/// `generation` built from it.
pub open spec fn holds_config(l: Launcher, text: Seq<char>, generation: nat) -> bool {
    &&& same_values(l.config.model(), config_of(text))
    &&& l.menu.built_from(generation, l.config.locale@, entry_views(l.config.entries@))
}

impl Launcher {
    /// The shortcut is the one that the configuration's text describes, and the menu's
    /// identifiers are those of its generation.
    pub open spec fn wf(&self) -> bool {
        &&& self.hotkey == hotkey_of(self.config.hotkey_text@)
        &&& self.menu.wf()
    }

    /// The state at start-up: the configuration read from `text`, its shortcut, and the
    /// menu of the first generation. The caller registers `hotkey` if it is `Some`.
    pub fn start(text: &str) -> (r: Launcher)
        ensures
            r.wf(),
            holds_config(r, text@, 0),
    {
        let config = parse_config(text);
        let hotkey = parse_hotkey(config.hotkey_text.as_str());
        let menu = MenuModel::build(0, config.locale.as_str(), &config.entries);
        Launcher { config, hotkey, menu }
    }

    /// Replaces the configuration with the one read from `text` and the menu with a new
    /// generation built from it. Only when the shortcut text changed is the old shortcut
    /// to be unregistered and the newly parsed one registered; the shortcut and its text
    /// change together.
    pub fn reload(&mut self, text: &str) -> (r: HotkeyChange)
        requires
            old(self).wf(),
            old(self).menu.generation < u64::MAX,
        ensures
            final(self).wf(),
            holds_config(*final(self), text@, (old(self).menu.generation + 1) as nat),
            if final(self).config.hotkey_text@ != old(self).config.hotkey_text@ {
                &&& r.unregister == old(self).hotkey
                &&& r.register == final(self).hotkey
            } else {
                &&& r.unregister is None
                &&& r.register is None
                &&& final(self).hotkey == old(self).hotkey
            },
    {
        let config = parse_config(text);
        let menu = MenuModel::build(self.menu.generation + 1, config.locale.as_str(), &config.entries);
        let change = if str_equal(config.hotkey_text.as_str(), self.config.hotkey_text.as_str()) {
            HotkeyChange { unregister: None, register: None }
        } else {
            let previous = self.hotkey;
            self.hotkey = parse_hotkey(config.hotkey_text.as_str());
            HotkeyChange { unregister: previous, register: self.hotkey }
        };
        self.config = config;
        self.menu = menu;
        change
    }

    /// What choosing the menu item with identifier `id` asks for in the current menu.
    pub fn choice(&self, id: &str) -> (r: MenuChoice)
        ensures
            r.view() == choice_for(self.menu, id@),
    {
        self.menu.choice(id)
    }

    /// One look at the pending shortcut notifications.
    pub fn hotkey_tick(&self, pending: &Vec<HotkeyEvent>) -> (r: HotkeyTick)
        ensures
            (r.show_menu, r.consumed as nat) == tick_of(self.hotkey, pending@),
    {
        if pending.len() == 0 {
            HotkeyTick { show_menu: false, consumed: 0 }
        } else {
            let e = pending[0];
            if self.hotkey.is_some() && e.pressed && e.matches_current {
                HotkeyTick { show_menu: true, consumed: pending.len() }
            } else {
                HotkeyTick { show_menu: false, consumed: 1 }
            }
        }
    }
}

/// A reload that changes only the shortcut text asks to unregister exactly the old
/// shortcut and to register exactly the new one; a reload that keeps the shortcut text
/// leaves the registered shortcut alone, whatever else changed.
pub proof fn lemma_hotkey_replace(before: Launcher, after: Launcher, text: Seq<char>, r: HotkeyChange)
    requires
        before.wf(),
        after.wf(),
        holds_config(after, text, (before.menu.generation + 1) as nat),
        if after.config.hotkey_text@ != before.config.hotkey_text@ {
            &&& r.unregister == before.hotkey
            &&& r.register == after.hotkey
        } else {
            &&& r.unregister is None
            &&& r.register is None
            &&& after.hotkey == before.hotkey
        },
    ensures
        config_of(text).hotkey_text != before.config.hotkey_text@ ==> {
            &&& r.unregister == hotkey_of(before.config.hotkey_text@)
            &&& r.register == hotkey_of(config_of(text).hotkey_text)
        },
        config_of(text).hotkey_text == before.config.hotkey_text@ ==> {
            &&& r.unregister is None
            &&& r.register is None
            &&& after.hotkey == before.hotkey
        },
{
}

/// After a reload, the identifier of every entry of the previous menu is unknown: it
/// never reaches the previous generation's command.
pub proof fn lemma_reload_forgets_old_ids(before: Launcher, after: Launcher, text: Seq<char>, i: int)
    requires
        before.wf(),
        after.wf(),
        holds_config(after, text, (before.menu.generation + 1) as nat),
        0 <= i < before.menu.items@.len(),
    ensures
        choice_for(after.menu, before.menu.items@[i].id@) == ChoiceView::Unknown,
{
    lemma_stale_ids_unknown(before.menu, after.menu, i);
}

} // verus!
