//! The window's context menu: the entries it shows, and the command that the
//! identifier of a selected entry stands for.
use vstd::prelude::*;
use vstd::string::StrSliceExecFns;

verus! {

/// What selecting a menu entry asks for.
#[derive(Clone, Debug, PartialEq, Eq)]
pub enum MenuCommand {
    /// Quit the application.
    Close,
    /// Flip the window's always-on-top state.
    TogglePin,
    /// Tell the UI layer to toggle whether the window takes input.
    ToggleInteraction,
    /// Tell the UI layer to set the window's opacity to the number that this
    /// text writes, read as a float; text that is no number asks for nothing.
    SetOpacity(String),
}

/// The meaning of a `MenuCommand`, with the opacity text as characters.
pub enum MenuAction {
    Close,
    TogglePin,
    ToggleInteraction,
    SetOpacity(Seq<char>),
}

impl View for MenuCommand {
    type V = MenuAction;

    open spec fn view(&self) -> MenuAction {
        match self {
            MenuCommand::Close => MenuAction::Close,
            MenuCommand::TogglePin => MenuAction::TogglePin,
            MenuCommand::ToggleInteraction => MenuAction::ToggleInteraction,
            MenuCommand::SetOpacity(t) => MenuAction::SetOpacity(t@),
        }
    }
}

/// The identifier prefix of the opacity entries.
pub open spec fn opacity_prefix() -> Seq<char> {
    "opacity_"@
}

/// The command that a menu entry's identifier stands for, if any.
pub open spec fn command_of(id: Seq<char>) -> Option<MenuAction> {
    if id == "close"@ {
        Some(MenuAction::Close)
    } else if id == "pin_toggle"@ {
        Some(MenuAction::TogglePin)
    } else if id == "toggle_interaction"@ {
        Some(MenuAction::ToggleInteraction)
    } else if opacity_prefix().is_prefix_of(id) {
        Some(MenuAction::SetOpacity(id.skip(opacity_prefix().len() as int)))
    } else {
        None
    }
}

/// The characters of `s`.
fn chars_of(s: &str) -> (r: Vec<char>)
    ensures
        r@ == s@,
{
    let n = s.unicode_len();
    let mut r: Vec<char> = Vec::new();
    let mut i: usize = 0;
    while i < n
        invariant
            n == s@.len(),
            i <= n,
            r@ == s@.take(i as int),
        decreases n - i,
    {
        r.push(s.get_char(i));
        i += 1;
        assert(r@ =~= s@.take(i as int));
    }
    assert(r@ =~= s@);
    r
}

/// Whether `cs` holds `word` from index `from` on.
fn holds_at(cs: &Vec<char>, from: usize, word: &str) -> (r: bool)
    requires
        from <= cs@.len(),
    ensures
        r == (from + word@.len() <= cs@.len() && cs@.subrange(from as int, from + word@.len())
            == word@),
{
    let n = word.unicode_len();
    if n > cs.len() - from {
        return false;
    }
    let end = from + n;
    let mut i: usize = 0;
    while i < n
        invariant
            n == word@.len(),
            end == from + n,
            from + n <= cs@.len(),
            i <= n,
            cs@.subrange(from as int, from + i) == word@.take(i as int),
        decreases n - i,
    {
        if cs[from + i] != word.get_char(i) {
            assert(cs@.subrange(from as int, from + n)[i as int] != word@[i as int]);
            return false;
        }
        i += 1;
        assert(cs@.subrange(from as int, from + i) =~= word@.take(i as int));
    }
    assert(word@.take(n as int) =~= word@);
    true
}

/// Whether `cs` is exactly `word`.
fn is_word(cs: &Vec<char>, word: &str) -> (r: bool)
    ensures
        r == (cs@ == word@),
{
    let r = cs.len() == word.unicode_len() && holds_at(cs, 0, word);
    proof {
        if cs@.len() == word@.len() {
            assert(cs@.subrange(0, word@.len() as int) =~= cs@);
        }
    }
    r
}

/// The command that the menu entry with identifier `id` stands for: `close`,
/// `pin_toggle` and `toggle_interaction` by name, and `opacity_` followed by
/// any text for setting the opacity that text writes (the caller reads it as
/// a float, and drops text that is no number). Any other identifier stands
/// for nothing.
pub fn menu_command(id: &str) -> (r: Option<MenuCommand>)
    ensures
        match r {
            Some(c) => command_of(id@) == Some(c@),
            None => command_of(id@) is None,
        },
{
    let cs = chars_of(id);
    if is_word(&cs, "close") {
        Some(MenuCommand::Close)
    } else if is_word(&cs, "pin_toggle") {
        Some(MenuCommand::TogglePin)
    } else if is_word(&cs, "toggle_interaction") {
        Some(MenuCommand::ToggleInteraction)
    } else if holds_at(&cs, 0, "opacity_") {
        let from = "opacity_".unicode_len();
        proof {
            assert(opacity_prefix().is_prefix_of(id@));
        }
        let text = id.substring_char(from, cs.len());
        proof {
            assert(id@.subrange(from as int, id@.len() as int) =~= id@.skip(from as int));
        }
        Some(MenuCommand::SetOpacity(String::from_str(text)))
    } else {
        proof {
            assert(!opacity_prefix().is_prefix_of(id@));
        }
        None
    }
}

/// One entry of the menu: its identifier, its label, and, for an entry with a
/// check mark, whether it is checked.
#[derive(Debug)]
pub struct MenuItem {
    pub id: String,
    pub label: String,
    pub checked: Option<bool>,
}

/// The context menu, top to bottom: the interaction toggle, the
/// always-on-top toggle, the opacity submenu, and the close entry.
#[derive(Debug)]
pub struct ContextMenu {
    pub interactive: MenuItem,
    pub pin: MenuItem,
    pub opacity_label: String,
    pub opacity: Vec<MenuItem>,
    pub close: MenuItem,
}

/// Whether `item` has the given identifier, label and check state.
pub open spec fn item_is(item: MenuItem, id: Seq<char>, label: Seq<char>, checked: Option<bool>) -> bool {
    item.id@ == id && item.label@ == label && item.checked == checked
}

/// The number that each opacity entry's identifier writes, top to bottom:
/// 100%, 75%, 50%, 25%.
pub open spec fn opacity_text(k: int) -> Seq<char> {
    if k == 0 {
        "1.0"@
    } else if k == 1 {
        "0.75"@
    } else if k == 2 {
        "0.5"@
    } else {
        "0.25"@
    }
}

/// Whether `m` is the context menu for a window whose interaction flag is
/// `is_interactive` and whose always-on-top state is `is_pinned`.
pub open spec fn is_context_menu(m: ContextMenu, is_interactive: bool, is_pinned: bool) -> bool {
    &&& item_is(m.interactive, "toggle_interaction"@, "Interactive"@, Some(is_interactive))
    &&& item_is(m.pin, "pin_toggle"@, "Always on Top"@, Some(is_pinned))
    &&& m.opacity_label@ == "Opacity"@
    &&& m.opacity@.len() == 4
    &&& item_is(m.opacity@[0], "opacity_1.0"@, "100%"@, None)
    &&& item_is(m.opacity@[1], "opacity_0.75"@, "75%"@, None)
    &&& item_is(m.opacity@[2], "opacity_0.5"@, "50%"@, None)
    &&& item_is(m.opacity@[3], "opacity_0.25"@, "25%"@, None)
    &&& item_is(m.close, "close"@, "Close"@, None)
}

fn item(id: &str, label: &str, checked: Option<bool>) -> (r: MenuItem)
    ensures
        item_is(r, id@, label@, checked),
{
    MenuItem { id: String::from_str(id), label: String::from_str(label), checked }
}

/// The context menu for a window whose interaction flag is `is_interactive`
/// and whose always-on-top state is `is_pinned`; both toggles show the state.
pub fn context_menu(is_interactive: bool, is_pinned: bool) -> (r: ContextMenu)
    ensures
        is_context_menu(r, is_interactive, is_pinned),
{
    let mut opacity: Vec<MenuItem> = Vec::new();
    opacity.push(item("opacity_1.0", "100%", None));
    opacity.push(item("opacity_0.75", "75%", None));
    opacity.push(item("opacity_0.5", "50%", None));
    opacity.push(item("opacity_0.25", "25%", None));
    ContextMenu {
        interactive: item("toggle_interaction", "Interactive", Some(is_interactive)),
        pin: item("pin_toggle", "Always on Top", Some(is_pinned)),
        opacity_label: String::from_str("Opacity"),
        opacity,
        close: item("close", "Close", None),
    }
}

/// Every entry of the context menu stands for its own command: the toggles
/// and the close entry for theirs, and each opacity entry for setting the
/// opacity its label shows.
pub proof fn lemma_menu_entries_dispatch(m: ContextMenu, is_interactive: bool, is_pinned: bool)
    requires
        is_context_menu(m, is_interactive, is_pinned),
    ensures
        command_of(m.interactive.id@) == Some(MenuAction::ToggleInteraction),
        command_of(m.pin.id@) == Some(MenuAction::TogglePin),
        command_of(m.close.id@) == Some(MenuAction::Close),
        forall|k: int|
            0 <= k < 4 ==> command_of(#[trigger] m.opacity@[k].id@) == Some(
                MenuAction::SetOpacity(opacity_text(k)),
            ),
{
    reveal_strlit("close");
    reveal_strlit("pin_toggle");
    reveal_strlit("toggle_interaction");
    reveal_strlit("opacity_");
    reveal_strlit("opacity_1.0");
    reveal_strlit("opacity_0.75");
    reveal_strlit("opacity_0.5");
    reveal_strlit("opacity_0.25");
    reveal_strlit("1.0");
    reveal_strlit("0.75");
    reveal_strlit("0.5");
    reveal_strlit("0.25");
    assert("pin_toggle"@.len() != "close"@.len());
    assert("toggle_interaction"@.len() != "close"@.len());
    assert("toggle_interaction"@.len() != "pin_toggle"@.len());
    assert("opacity_1.0"@.skip(8) =~= "1.0"@);
    assert("opacity_0.75"@.skip(8) =~= "0.75"@);
    assert("opacity_0.5"@.skip(8) =~= "0.5"@);
    assert("opacity_0.25"@.skip(8) =~= "0.25"@);
}

} // verus!
