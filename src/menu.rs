use vstd::prelude::*;
use vstd::string::StringExecFns;
use crate::config::{entry_views, MenuEntry};
use crate::localization::{
    edit_environment_text, exit_text, language_of, reload_text, LocalizedStrings,
};
use crate::text::{str_equal, string_of};

verus! {

/// Identifier of the menu item that opens the configuration for editing.
pub const MENU_ID_EDIT: &'static str = "menu_edit_env";

/// Identifier of the menu item that reloads the configuration.
pub const MENU_ID_RELOAD: &'static str = "menu_reload";

/// Identifier of the menu item that ends the program.
pub const MENU_ID_EXIT: &'static str = "menu_exit";

/// The character for a digit below ten.
pub open spec fn digit_char(d: nat) -> char {
    if d == 0 { '0' }
    else if d == 1 { '1' }
    else if d == 2 { '2' }
    else if d == 3 { '3' }
    else if d == 4 { '4' }
    else if d == 5 { '5' }
    else if d == 6 { '6' }
    else if d == 7 { '7' }
    else if d == 8 { '8' }
    else { '9' }
}

/// The value of a decimal digit character.
pub open spec fn digit_value(c: char) -> nat {
    if c == '1' { 1 }
    else if c == '2' { 2 }
    else if c == '3' { 3 }
    else if c == '4' { 4 }
    else if c == '5' { 5 }
    else if c == '6' { 6 }
    else if c == '7' { 7 }
    else if c == '8' { 8 }
    else if c == '9' { 9 }
    else { 0 }
}

pub open spec fn is_digit(c: char) -> bool {
    '0' <= c && c <= '9'
}

/// The decimal form of `n`, without leading zeros.
pub open spec fn decimal(n: nat) -> Seq<char>
    decreases n,
{
    if n < 10 {
        seq![digit_char(n)]
    } else {
        decimal(n / 10).push(digit_char(n % 10))
    }
}

/// The number that a string of digits spells.
pub open spec fn decimal_value(s: Seq<char>) -> nat
    decreases s.len(),
{
    if s.len() == 0 {
        0
    } else {
        decimal_value(s.drop_last()) * 10 + digit_value(s.last())
    }
}

/// The identifier of the entry at `index` in the menu of generation `generation`.
pub open spec fn item_id(generation: nat, index: nat) -> Seq<char> {
    seq!['a', 'p', 'p', '_'] + decimal(generation) + seq!['_'] + decimal(index)
}

proof fn lemma_decimal_digits(n: nat)
    ensures
        forall|i: int| 0 <= i < decimal(n).len() ==> is_digit(#[trigger] decimal(n)[i]),
        decimal(n).len() > 0,
    decreases n,
{
    if n >= 10 {
        lemma_decimal_digits(n / 10);
    }
}

proof fn lemma_digit_round_trip(d: nat)
    requires
        d < 10,
    ensures
        digit_value(digit_char(d)) == d,
{
}

proof fn lemma_decimal_value(n: nat)
    ensures
        decimal_value(decimal(n)) == n,
    decreases n,
{
    if n < 10 {
        assert(decimal(n).drop_last() == Seq::<char>::empty());
        assert(decimal_value(Seq::<char>::empty()) == 0);
        lemma_digit_round_trip(n);
    } else {
        lemma_digit_round_trip(n % 10);
        lemma_decimal_value(n / 10);
        assert(decimal(n).drop_last() == decimal(n / 10));
        assert(decimal(n).last() == digit_char(n % 10));
        vstd::arithmetic::div_mod::lemma_fundamental_div_mod(n as int, 10);
        assert(decimal_value(decimal(n)) == decimal_value(decimal(n / 10)) * 10 + digit_value(digit_char(n % 10)));
    }
}

/// Two `digits _ digits` strings that are equal agree on both parts.
proof fn lemma_split_at_separator(a: Seq<char>, c: Seq<char>, b: Seq<char>, d: Seq<char>)
    requires
        forall|i: int| 0 <= i < a.len() ==> is_digit(#[trigger] a[i]),
        forall|i: int| 0 <= i < b.len() ==> is_digit(#[trigger] b[i]),
        a + seq!['_'] + c == b + seq!['_'] + d,
    ensures
        a == b,
        c == d,
{
    let l = a + seq!['_'] + c;
    let r = b + seq!['_'] + d;
    if a.len() < b.len() {
        assert(l[a.len() as int] == '_');
        assert(r[a.len() as int] == b[a.len() as int]);
    } else if b.len() < a.len() {
        assert(r[b.len() as int] == '_');
        assert(l[b.len() as int] == a[b.len() as int]);
    }
    assert(a == l.subrange(0, a.len() as int));
    assert(b == r.subrange(0, b.len() as int));
    assert(c == l.subrange(a.len() as int + 1, l.len() as int));
    assert(d == r.subrange(b.len() as int + 1, r.len() as int));
}

/// Different generations or positions never share an identifier.
pub proof fn lemma_item_id_injective(g1: nat, i1: nat, g2: nat, i2: nat)
    requires
        item_id(g1, i1) == item_id(g2, i2),
    ensures
        g1 == g2,
        i1 == i2,
{
    let p = seq!['a', 'p', 'p', '_'];
    let x = decimal(g1) + seq!['_'] + decimal(i1);
    let y = decimal(g2) + seq!['_'] + decimal(i2);
    assert(item_id(g1, i1) == p + x);
    assert(item_id(g2, i2) == p + y);
    assert(x == (p + x).skip(4));
    assert(y == (p + y).skip(4));
    lemma_decimal_digits(g1);
    lemma_decimal_digits(g2);
    lemma_split_at_separator(decimal(g1), decimal(i1), decimal(g2), decimal(i2));
    lemma_decimal_value(g1);
    lemma_decimal_value(g2);
    lemma_decimal_value(i1);
    lemma_decimal_value(i2);
}

/// A generated identifier is none of the fixed ones.
pub proof fn lemma_item_id_not_static(g: nat, i: nat)
    ensures
        item_id(g, i) != MENU_ID_EDIT@,
        item_id(g, i) != MENU_ID_RELOAD@,
        item_id(g, i) != MENU_ID_EXIT@,
{
    reveal_strlit("menu_edit_env");
    reveal_strlit("menu_reload");
    reveal_strlit("menu_exit");
    assert(item_id(g, i)[0] == 'a');
}

fn digit_char_exec(d: u64) -> (r: char)
    requires
        d < 10,
    ensures
        r == digit_char(d as nat),
{
    if d == 0 { '0' }
    else if d == 1 { '1' }
    else if d == 2 { '2' }
    else if d == 3 { '3' }
    else if d == 4 { '4' }
    else if d == 5 { '5' }
    else if d == 6 { '6' }
    else if d == 7 { '7' }
    else if d == 8 { '8' }
    else { '9' }
}

fn push_decimal(n: u64, out: &mut Vec<char>)
    ensures
        final(out)@ == old(out)@ + decimal(n as nat),
    decreases n,
{
    if n >= 10 {
        push_decimal(n / 10, out);
    }
    out.push(digit_char_exec(n % 10));
}

/// The identifier of the entry at `index` in the menu of generation `generation`.
pub fn make_item_id(generation: u64, index: u64) -> (r: String)
    ensures
        r@ == item_id(generation as nat, index as nat),
{
    let mut cs: Vec<char> = Vec::new();
    cs.push('a');
    cs.push('p');
    cs.push('p');
    cs.push('_');
    push_decimal(generation, &mut cs);
    cs.push('_');
    push_decimal(index, &mut cs);
    string_of(cs.as_slice())
}

/// A menu item for one launcher entry.
pub struct EntryItem {
    pub id: String,
    pub label: String,
    pub command: String,
}

/// One generation of the tray menu: an item per entry, in order, then a separator and the
/// three fixed items.
pub struct MenuModel {
    pub generation: u64,
    pub items: Vec<EntryItem>,
    pub edit_label: String,
    pub reload_label: String,
    pub exit_label: String,
}

/// What choosing a menu item asks for.
pub enum MenuChoice {
    EditConfig,
    Reload,
    Exit,
    Run(String),
    Unknown,
}

/// The view of a menu choice.
pub enum ChoiceView {
    EditConfig,
    Reload,
    Exit,
    Run(Seq<char>),
    Unknown,
}

impl MenuChoice {
    pub open spec fn view(&self) -> ChoiceView {
        match self {
            MenuChoice::EditConfig => ChoiceView::EditConfig,
            MenuChoice::Reload => ChoiceView::Reload,
            MenuChoice::Exit => ChoiceView::Exit,
            MenuChoice::Run(c) => ChoiceView::Run(c@),
            MenuChoice::Unknown => ChoiceView::Unknown,
        }
    }
}

/// The command of the first item whose identifier is `id`.
pub open spec fn command_for(items: Seq<EntryItem>, id: Seq<char>) -> Option<Seq<char>>
    decreases items.len(),
{
    if items.len() == 0 {
        None
    } else if items[0].id@ == id {
        Some(items[0].command@)
    } else {
        command_for(items.skip(1), id)
    }
}

/// What the menu item with identifier `id` asks for in this menu: the fixed identifiers
/// first, then the entries; an identifier of no item is unknown.
pub open spec fn choice_for(m: MenuModel, id: Seq<char>) -> ChoiceView {
    if id == MENU_ID_EDIT@ {
        ChoiceView::EditConfig
    } else if id == MENU_ID_RELOAD@ {
        ChoiceView::Reload
    } else if id == MENU_ID_EXIT@ {
        ChoiceView::Exit
    } else {
        match command_for(m.items@, id) {
            Some(c) => ChoiceView::Run(c),
            None => ChoiceView::Unknown,
        }
    }
}

proof fn lemma_command_for_index(items: Seq<EntryItem>, id: Seq<char>, k: int)
    requires
        0 <= k < items.len(),
        items[k].id@ == id,
        forall|j: int| 0 <= j < k ==> items[j].id@ != id,
    ensures
        command_for(items, id) == Some(items[k].command@),
    decreases k,
{
    if k > 0 {
        lemma_command_for_index(items.skip(1), id, k - 1);
    }
}

proof fn lemma_command_for_none(items: Seq<EntryItem>, id: Seq<char>)
    requires
        forall|j: int| 0 <= j < items.len() ==> items[j].id@ != id,
    ensures
        command_for(items, id) is None,
    decreases items.len(),
{
    if items.len() > 0 {
        lemma_command_for_none(items.skip(1), id);
    }
}

impl MenuModel {
    /// Each item carries the identifier of its generation and position.
    pub open spec fn wf(&self) -> bool {
        forall|i: int| 0 <= i < self.items@.len()
            ==> (#[trigger] self.items@[i]).id@ == item_id(self.generation as nat, i as nat)
    }

    /// Whether this menu is the one built for `entries` and `locale` in `generation`.
    pub open spec fn built_from(
        &self,
        generation: nat,
        locale: Seq<char>,
        entries: Seq<(Seq<char>, Seq<char>)>,
    ) -> bool {
        &&& self.generation == generation
        &&& self.wf()
        &&& self.items@.len() == entries.len()
        &&& forall|i: int| 0 <= i < entries.len() ==> {
            &&& (#[trigger] self.items@[i]).label@ == entries[i].0
            &&& self.items@[i].command@ == entries[i].1
        }
        &&& self.edit_label@ == edit_environment_text(language_of(locale))
        &&& self.reload_label@ == reload_text(language_of(locale))
        &&& self.exit_label@ == exit_text(language_of(locale))
    }

    /// Builds the menu of generation `generation` for the entries, with the fixed items
    /// labelled in the locale's language.
    pub fn build(generation: u64, locale: &str, entries: &Vec<MenuEntry>) -> (r: MenuModel)
        ensures
            r.built_from(generation as nat, locale@, entry_views(entries@)),
    {
        let strings = LocalizedStrings::new(locale);
        let mut items: Vec<EntryItem> = Vec::new();
        let mut i: usize = 0;
        while i < entries.len()
            invariant
                i <= entries@.len(),
                items@.len() == i,
                forall|j: int| 0 <= j < i ==> {
                    &&& (#[trigger] items@[j]).id@ == item_id(generation as nat, j as nat)
                    &&& items@[j].label@ == entries@[j].label@
                    &&& items@[j].command@ == entries@[j].command@
                },
            decreases entries@.len() - i,
        {
            let e = &entries[i];
            let item = EntryItem {
                id: make_item_id(generation, i as u64),
                label: e.label.clone(),
                command: e.command.clone(),
            };
            items.push(item);
            i = i + 1;
        }
        MenuModel {
            generation,
            items,
            edit_label: strings.edit_environment,
            reload_label: strings.reload,
            exit_label: strings.exit,
        }
    }

    /// What choosing the item with identifier `id` asks for.
    pub fn choice(&self, id: &str) -> (r: MenuChoice)
        ensures
            r.view() == choice_for(*self, id@),
    {
        if str_equal(id, MENU_ID_EDIT) {
            return MenuChoice::EditConfig;
        }
        if str_equal(id, MENU_ID_RELOAD) {
            return MenuChoice::Reload;
        }
        if str_equal(id, MENU_ID_EXIT) {
            return MenuChoice::Exit;
        }
        let mut i: usize = 0;
        while i < self.items.len()
            invariant
                i <= self.items@.len(),
                id@ != MENU_ID_EDIT@,
                id@ != MENU_ID_RELOAD@,
                id@ != MENU_ID_EXIT@,
                forall|j: int| 0 <= j < i ==> (#[trigger] self.items@[j]).id@ != id@,
            decreases self.items@.len() - i,
        {
            if str_equal(id, self.items[i].id.as_str()) {
                proof {
                    lemma_command_for_index(self.items@, id@, i as int);
                }
                let c = self.items[i].command.clone();
                return MenuChoice::Run(c);
            }
            i = i + 1;
        }
        proof {
            lemma_command_for_none(self.items@, id@);
        }
        MenuChoice::Unknown
    }
}

/// In a well-formed menu the identifier of each entry's item asks to run that entry's command.
pub proof fn lemma_item_resolves(m: MenuModel, i: int)
    requires
        m.wf(),
        0 <= i < m.items@.len(),
    ensures
        choice_for(m, item_id(m.generation as nat, i as nat)) == ChoiceView::Run(m.items@[i].command@),
{
    let id = item_id(m.generation as nat, i as nat);
    lemma_item_id_not_static(m.generation as nat, i as nat);
    assert forall|j: int| 0 <= j < i implies m.items@[j].id@ != id by {
        assert(m.items@[j].id@ == item_id(m.generation as nat, j as nat));
        if m.items@[j].id@ == id {
            lemma_item_id_injective(m.generation as nat, j as nat, m.generation as nat, i as nat);
        }
    }
    lemma_command_for_index(m.items@, id, i);
}

/// After a menu is replaced by one of another generation, every identifier of the old
/// menu's entries is unknown to the new one: no stale identifier reaches a command.
pub proof fn lemma_stale_ids_unknown(old_menu: MenuModel, new_menu: MenuModel, i: int)
    requires
        old_menu.wf(),
        new_menu.wf(),
        old_menu.generation != new_menu.generation,
        0 <= i < old_menu.items@.len(),
    ensures
        choice_for(new_menu, old_menu.items@[i].id@) == ChoiceView::Unknown,
{
    let id = item_id(old_menu.generation as nat, i as nat);
    lemma_item_id_not_static(old_menu.generation as nat, i as nat);
    assert forall|j: int| 0 <= j < new_menu.items@.len() implies new_menu.items@[j].id@ != id by {
        assert(new_menu.items@[j].id@ == item_id(new_menu.generation as nat, j as nat));
        if new_menu.items@[j].id@ == id {
            lemma_item_id_injective(new_menu.generation as nat, j as nat, old_menu.generation as nat, i as nat);
        }
    }
    lemma_command_for_none(new_menu.items@, id);
}

} // verus!
