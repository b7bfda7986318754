//! The menu hierarchy: a menu bar whose items open menus of commands.

use crate::region::{ObjectKind, RegionError, RegionState, ResourceRegion};
use vstd::prelude::*;
use vstd::string::*;

verus! {

/// What choosing a command asks of the application.
#[derive(Clone, Copy, Debug, PartialEq, Eq, Structural)]
pub enum Action {
    /// Ask the event loop to stop dispatching and return to its caller.
    Stop,
    /// Ask the application to shut the process down.
    Terminate,
}

/// The key that, pressed with the command modifier, chooses the quit command.
pub const QUIT_KEY: char = 'q';

/// The text that the title of the quit command starts with.
pub open spec fn quit_prefix() -> Seq<char> {
    seq!['Q', 'u', 'i', 't', ' ']
}

/// The name that a process goes by where its name was looked up with the
/// given result: the empty name where none was found.
pub open spec fn name_or_empty(process_name: Option<&str>) -> Seq<char> {
    match process_name {
        Some(name) => name@,
        None => Seq::empty(),
    }
}

/// The title of the quit command of a process with the given name. With an
/// empty name it is the bare prefix.
pub open spec fn quit_title_of(process_name: Seq<char>) -> Seq<char> {
    quit_prefix() + process_name
}

/// A command of a menu, as contracts see it.
pub ghost struct CommandItemView {
    pub handle: int,
    pub title: Seq<char>,
    pub action: Action,
    pub key_equivalent: char,
}

/// A menu of commands, as contracts see it.
pub ghost struct MenuView {
    pub handle: int,
    pub items: Seq<CommandItemView>,
}

/// An item of the menu bar, as contracts see it.
pub ghost struct MenuBarItemView {
    pub handle: int,
    pub title: Option<Seq<char>>,
    pub submenu: Option<MenuView>,
}

/// A menu bar, as contracts see it.
pub ghost struct MenuBarView {
    pub handle: int,
    pub items: Seq<MenuBarItemView>,
}

impl MenuView {
    /// The menu and each of its commands are live in `region`.
    pub open spec fn live_in(self, region: RegionState) -> bool {
        &&& region.live(self.handle)
        &&& forall|i: int| 0 <= i < self.items.len() ==> region.live(#[trigger] self.items[i].handle)
    }
}

impl MenuBarItemView {
    /// The item and, where it has one, its submenu are live in `region`.
    pub open spec fn live_in(self, region: RegionState) -> bool {
        &&& region.live(self.handle)
        &&& self.submenu matches Some(menu) ==> menu.live_in(region)
    }
}

impl MenuBarView {
    /// The shape of a main menu whose objects take four handles in a row from
    /// `first_handle` on: exactly one top-level item, untitled, which owns
    /// exactly one submenu, which holds exactly one command, the quit command.
    pub open spec fn is_main_menu(self, first_handle: int) -> bool {
        &&& self.handle == first_handle
        &&& self.items.len() == 1
        &&& self.items[0].handle == first_handle + 1
        &&& self.items[0].title is None
        &&& self.items[0].submenu matches Some(menu)
        &&& menu.handle == first_handle + 2
        &&& menu.items.len() == 1
        &&& menu.items[0].handle == first_handle + 3
        &&& menu.items[0].key_equivalent == QUIT_KEY
        &&& menu.items[0].title.len() >= quit_prefix().len()
        &&& menu.items[0].title.subrange(0, quit_prefix().len() as int) == quit_prefix()
    }

    /// Every object that the menu bar refers to, itself included, is live in
    /// `region`.
    pub open spec fn live_in(self, region: RegionState) -> bool {
        &&& region.live(self.handle)
        &&& forall|i: int| 0 <= i < self.items.len() ==> (#[trigger] self.items[i]).live_in(region)
    }
}

/// The kinds of the objects that make up the main menu, in the order in which
/// they are created: the menu bar, its one item, the application menu and the
/// quit command.
pub open spec fn main_menu_objects() -> Seq<ObjectKind> {
    seq![ObjectKind::MenuBar, ObjectKind::MenuItem, ObjectKind::Menu, ObjectKind::MenuItem]
}

/// The main menu of a process: a menu bar with one untitled item, whose
/// submenu holds the quit command alone. Its four objects take four handles in
/// a row from `first_handle` on, in the order in which they are created.
pub open spec fn main_menu(first_handle: int, process_name: Seq<char>, quit: Action) -> MenuBarView {
    MenuBarView {
        handle: first_handle,
        items: seq![
            MenuBarItemView {
                handle: first_handle + 1,
                title: None,
                submenu: Some(
                    MenuView {
                        handle: first_handle + 2,
                        items: seq![
                            CommandItemView {
                                handle: first_handle + 3,
                                title: quit_title_of(process_name),
                                action: quit,
                                key_equivalent: QUIT_KEY,
                            },
                        ],
                    },
                ),
            },
        ],
    }
}

/// A command: a titled item that performs an action when it is chosen.
#[derive(Debug, PartialEq, Eq)]
pub struct CommandItem {
    pub handle: usize,
    pub title: String,
    pub action: Action,
    pub key_equivalent: char,
}

/// A menu: an ordered sequence of commands.
#[derive(Debug, PartialEq, Eq)]
pub struct Menu {
    pub handle: usize,
    pub items: Vec<CommandItem>,
}

/// An item of the menu bar. Without a title of its own it is shown under the
/// name of the process.
#[derive(Debug, PartialEq, Eq)]
pub struct MenuBarItem {
    pub handle: usize,
    pub title: Option<String>,
    pub submenu: Option<Menu>,
}

/// The menu bar: an ordered sequence of top-level items.
#[derive(Debug, PartialEq, Eq)]
pub struct MenuBar {
    pub handle: usize,
    pub items: Vec<MenuBarItem>,
}

impl View for CommandItem {
    type V = CommandItemView;

    open spec fn view(&self) -> CommandItemView {
        CommandItemView {
            handle: self.handle as int,
            title: self.title@,
            action: self.action,
            key_equivalent: self.key_equivalent,
        }
    }
}

impl View for Menu {
    type V = MenuView;

    open spec fn view(&self) -> MenuView {
        MenuView {
            handle: self.handle as int,
            items: Seq::new(self.items@.len(), |i: int| self.items@[i]@),
        }
    }
}

impl View for MenuBarItem {
    type V = MenuBarItemView;

    open spec fn view(&self) -> MenuBarItemView {
        MenuBarItemView {
            handle: self.handle as int,
            title: match self.title {
                Some(t) => Some(t@),
                None => None,
            },
            submenu: match self.submenu {
                Some(m) => Some(m@),
                None => None,
            },
        }
    }
}

impl View for MenuBar {
    type V = MenuBarView;

    open spec fn view(&self) -> MenuBarView {
        MenuBarView {
            handle: self.handle as int,
            items: Seq::new(self.items@.len(), |i: int| self.items@[i]@),
        }
    }
}

/// Composes the title of the quit command from the name of the process, or
/// from `None` where the name could not be found out: the title is then the
/// bare prefix, as it is for an empty name.
pub fn quit_title(process_name: Option<&str>) -> (title: String)
    ensures
        title@ == quit_title_of(name_or_empty(process_name)),
{
    let prefix: String = String::from_str("Quit ");
    proof {
        reveal_strlit("Quit ");
        assert("Quit "@ =~= quit_prefix());
    }
    match process_name {
        Some(name) => prefix.concat(name),
        None => {
            assert(quit_prefix() + Seq::<char>::empty() =~= quit_prefix());
            prefix
        },
    }
}

impl Action {
    /// The name under which the application answers the action.
    pub open spec fn selector(self) -> Seq<char> {
        match self {
            Action::Stop => seq!['s', 't', 'o', 'p', ':'],
            Action::Terminate => seq!['t', 'e', 'r', 'm', 'i', 'n', 'a', 't', 'e', ':'],
        }
    }

    /// Gives `selector` as text.
    pub fn selector_name(&self) -> (name: &'static str)
        ensures
            name@ == self.selector(),
    {
        match self {
            Action::Stop => {
                proof {
                    reveal_strlit("stop:");
                    assert("stop:"@ =~= Action::Stop.selector());
                }
                "stop:"
            },
            Action::Terminate => {
                proof {
                    reveal_strlit("terminate:");
                    assert("terminate:"@ =~= Action::Terminate.selector());
                }
                "terminate:"
            },
        }
    }
}

impl CommandItem {
    /// Makes a command with the given title, action and key equivalent.
    pub fn new(handle: usize, title: String, action: Action, key_equivalent: char) -> (item:
        CommandItem)
        ensures
            item@ == (CommandItemView {
                handle: handle as int,
                title: title@,
                action,
                key_equivalent,
            }),
    {
        CommandItem { handle, title, action, key_equivalent }
    }
}

impl Menu {
    /// Makes an empty menu.
    pub fn new(handle: usize) -> (menu: Menu)
        ensures
            menu@ == (MenuView { handle: handle as int, items: Seq::empty() }),
    {
        let menu = Menu { handle, items: Vec::new() };
        assert(menu@.items =~= Seq::empty());
        menu
    }

    /// Appends a command to the menu.
    pub fn add_item(&mut self, item: CommandItem)
        ensures
            final(self)@ == (MenuView {
                handle: old(self)@.handle,
                items: old(self)@.items.push(item@),
            }),
    {
        self.items.push(item);
        assert(self@.items =~= old(self)@.items.push(item@));
    }
}

impl Menu {
    /// Tests whether the menu and each of its commands are live in `region`.
    pub fn is_live_in(&self, region: &ResourceRegion) -> (b: bool)
        ensures
            b == self@.live_in(region@),
    {
        if !region.is_live(self.handle) {
            return false;
        }
        let mut i: usize = 0;
        while i < self.items.len()
            invariant
                i <= self.items.len(),
                forall|j: int| 0 <= j < i ==> region@.live(#[trigger] self@.items[j].handle),
            decreases self.items.len() - i,
        {
            if !region.is_live(self.items[i].handle) {
                assert(!region@.live(self@.items[i as int].handle));
                return false;
            }
            i = i + 1;
        }
        true
    }
}

impl MenuBarItem {
    /// Tests whether the item and, where it has one, its submenu are live in
    /// `region`.
    pub fn is_live_in(&self, region: &ResourceRegion) -> (b: bool)
        ensures
            b == self@.live_in(region@),
    {
        if !region.is_live(self.handle) {
            return false;
        }
        match &self.submenu {
            Some(menu) => menu.is_live_in(region),
            None => true,
        }
    }

    /// Makes an item without a title and without a submenu.
    pub fn new(handle: usize) -> (item: MenuBarItem)
        ensures
            item@ == (MenuBarItemView { handle: handle as int, title: None, submenu: None }),
    {
        MenuBarItem { handle, title: None, submenu: None }
    }

    /// Attaches `menu` as the submenu of the item, in place of any earlier one.
    pub fn set_submenu(&mut self, menu: Menu)
        ensures
            final(self)@ == (MenuBarItemView { submenu: Some(menu@), ..old(self)@ }),
    {
        self.submenu = Some(menu);
    }
}

impl MenuBar {
    /// Tests whether every object that the menu bar refers to, itself
    /// included, is live in `region`.
    pub fn is_live_in(&self, region: &ResourceRegion) -> (b: bool)
        ensures
            b == self@.live_in(region@),
    {
        if !region.is_live(self.handle) {
            return false;
        }
        let mut i: usize = 0;
        while i < self.items.len()
            invariant
                i <= self.items.len(),
                forall|j: int| 0 <= j < i ==> (#[trigger] self@.items[j]).live_in(region@),
            decreases self.items.len() - i,
        {
            if !self.items[i].is_live_in(region) {
                assert(!self@.items[i as int].live_in(region@));
                return false;
            }
            i = i + 1;
        }
        true
    }

    /// Makes an empty menu bar.
    pub fn new(handle: usize) -> (bar: MenuBar)
        ensures
            bar@ == (MenuBarView { handle: handle as int, items: Seq::empty() }),
    {
        let bar = MenuBar { handle, items: Vec::new() };
        assert(bar@.items =~= Seq::empty());
        bar
    }

    /// Appends a top-level item to the menu bar.
    pub fn add_item(&mut self, item: MenuBarItem)
        ensures
            final(self)@ == (MenuBarView {
                handle: old(self)@.handle,
                items: old(self)@.items.push(item@),
            }),
    {
        self.items.push(item);
        assert(self@.items =~= old(self)@.items.push(item@));
    }
}

/// Builds the main menu of a process and registers its objects in `region`:
/// the menu bar, its one item, the application menu that the item opens, and
/// the quit command, which is titled after the process, performs `quit` and
/// answers to the quit key. `process_name` is the name of the process, or
/// `None` where it could not be found out.
///
/// A drained region refuses, and then nothing is registered.
pub fn build_main_menu(
    region: &mut ResourceRegion,
    process_name: Option<&str>,
    quit: Action,
) -> (r: Result<MenuBar, RegionError>)
    ensures
        match r {
            Ok(bar) => {
                &&& !old(region)@.drained
                &&& bar@ == main_menu(
                    old(region)@.registered.len() as int,
                    name_or_empty(process_name),
                    quit,
                )
                &&& final(region)@ == (RegionState {
                    registered: old(region)@.registered + main_menu_objects(),
                    drained: false,
                })
                &&& bar@.live_in(final(region)@)
            },
            Err(e) => {
                &&& old(region)@.drained
                &&& e == RegionError::Drained
                &&& final(region)@ == old(region)@
            },
        },
{
    if region.is_drained() {
        return Err(RegionError::Drained);
    }
    let bar_handle: usize = match region.register(ObjectKind::MenuBar) {
        Ok(handle) => handle,
        Err(e) => { return Err(e); },
    };
    let item_handle: usize = match region.register(ObjectKind::MenuItem) {
        Ok(handle) => handle,
        Err(e) => { return Err(e); },
    };
    let menu_handle: usize = match region.register(ObjectKind::Menu) {
        Ok(handle) => handle,
        Err(e) => { return Err(e); },
    };
    let quit_handle: usize = match region.register(ObjectKind::MenuItem) {
        Ok(handle) => handle,
        Err(e) => { return Err(e); },
    };
    let mut bar = MenuBar::new(bar_handle);
    let mut app_item = MenuBarItem::new(item_handle);
    let mut app_menu = Menu::new(menu_handle);
    let quit_item = CommandItem::new(quit_handle, quit_title(process_name), quit, QUIT_KEY);
    app_menu.add_item(quit_item);
    app_item.set_submenu(app_menu);
    bar.add_item(app_item);
    proof {
        let first = old(region)@.registered.len() as int;
        let expected = main_menu(first, name_or_empty(process_name), quit);
        assert(region@.registered =~= old(region)@.registered + main_menu_objects());
        assert(app_menu@.items =~= expected.items[0].submenu->0.items);
        assert(bar@.items =~= expected.items);
    }
    Ok(bar)
}

/// The title of the quit command is the prefix followed by the name of the
/// process, and the prefix alone where the name is empty or was not found.
pub proof fn lemma_quit_title(process_name: Seq<char>)
    ensures
        quit_title_of(process_name).len() == quit_prefix().len() + process_name.len(),
        quit_title_of(process_name).subrange(0, quit_prefix().len() as int) == quit_prefix(),
        quit_title_of(process_name).subrange(
            quit_prefix().len() as int,
            quit_title_of(process_name).len() as int,
        ) == process_name,
        process_name.len() == 0 ==> quit_title_of(process_name) == quit_prefix(),
        quit_title_of(name_or_empty(None)) == quit_prefix(),
{
    let title = quit_title_of(process_name);
    assert(title.subrange(0, quit_prefix().len() as int) =~= quit_prefix());
    assert(title.subrange(quit_prefix().len() as int, title.len() as int) =~= process_name);
    if process_name.len() == 0 {
        assert(title =~= quit_prefix());
    }
    assert(quit_title_of(name_or_empty(None)) =~= quit_prefix());
}

/// What `main_menu` describes has the shape of a main menu, and its command
/// performs the action that was asked for.
pub proof fn lemma_main_menu_shape(first_handle: int, process_name: Seq<char>, quit: Action)
    ensures
        main_menu(first_handle, process_name, quit).is_main_menu(first_handle),
        main_menu(first_handle, process_name, quit).items[0].submenu->0.items[0].action == quit,
        main_menu(first_handle, process_name, quit).items[0].submenu->0.items[0].title
            == quit_title_of(process_name),
{
    lemma_quit_title(process_name);
}

/// Registering more objects keeps a menu bar live; a drain ends the life of
/// every menu bar.
pub proof fn lemma_menu_bar_life(bar: MenuBarView, region: RegionState, kind: ObjectKind)
    requires
        bar.live_in(region),
    ensures
        bar.live_in(region.after_register(kind)),
        !bar.live_in(region.after_drain()),
{
}

} // verus!
