//! The application menu of the platform that has one.
//!
//! The menu is made once and never changed. One of its items is the
//! library's own: the toolkit gives it an identity when the menu is
//! installed, and a later selection is told apart by that identity.

use vstd::prelude::*;

verus! {

/// The identity that the toolkit gives to a menu item.
#[derive(Clone, Copy, Debug, PartialEq, Eq, Structural)]
pub struct MenuId(pub u16);

/// An item whose look and action the platform supplies.
#[derive(Clone, Copy, Debug, PartialEq, Eq, Structural)]
pub enum NativeItem {
    Hide,
    EnterFullScreen,
    Minimize,
    Separator,
    Copy,
    Cut,
    Paste,
    Undo,
    Redo,
    SelectAll,
    Quit,
}

/// One entry of a submenu.
#[derive(Clone, Copy, Debug, PartialEq, Eq, Structural)]
pub enum MenuEntry {
    /// An item of the platform.
    Native(NativeItem),
    /// The library's own item, labelled `CloseWindow`, with the shortcut
    /// that `close_window_accelerator` gives.
    CloseWindow,
}

/// The modifier of a keyboard shortcut.
#[derive(Clone, Copy, Debug, PartialEq, Eq, Structural)]
pub enum Modifier {
    /// The platform's command key.
    Cmd,
}

/// The key of a keyboard shortcut.
#[derive(Clone, Copy, Debug, PartialEq, Eq, Structural)]
pub enum Key {
    /// The letter W.
    W,
}

/// A keyboard shortcut of a menu item.
#[derive(Clone, Copy, Debug, PartialEq, Eq, Structural)]
pub struct Accelerator {
    pub modifier: Modifier,
    pub key: Key,
}

/// A titled list of entries.
#[derive(Clone, Debug, PartialEq, Eq)]
pub struct Submenu {
    pub title: String,
    pub enabled: bool,
    pub entries: Vec<MenuEntry>,
}

/// What a `Submenu` is to a contract.
pub struct SubmenuView {
    pub title: Seq<char>,
    pub enabled: bool,
    pub entries: Seq<MenuEntry>,
}

impl View for Submenu {
    type V = SubmenuView;

    open spec fn view(&self) -> SubmenuView {
        SubmenuView { title: self.title@, enabled: self.enabled, entries: self.entries@ }
    }
}

/// The menu bar: its submenus from left to right.
#[derive(Clone, Debug, PartialEq, Eq)]
pub struct MenuModel {
    pub submenus: Vec<Submenu>,
}

impl View for MenuModel {
    type V = Seq<SubmenuView>;

    open spec fn view(&self) -> Seq<SubmenuView> {
        self.submenus@.map_values(|s: Submenu| s@)
    }
}

/// The entries of the application's one submenu, top to bottom.
pub open spec fn app_entries() -> Seq<MenuEntry> {
    seq![
        MenuEntry::Native(NativeItem::Hide),
        MenuEntry::Native(NativeItem::EnterFullScreen),
        MenuEntry::Native(NativeItem::Minimize),
        MenuEntry::Native(NativeItem::Separator),
        MenuEntry::Native(NativeItem::Copy),
        MenuEntry::Native(NativeItem::Cut),
        MenuEntry::Native(NativeItem::Paste),
        MenuEntry::Native(NativeItem::Undo),
        MenuEntry::Native(NativeItem::Redo),
        MenuEntry::Native(NativeItem::SelectAll),
        MenuEntry::Native(NativeItem::Separator),
        MenuEntry::CloseWindow,
        MenuEntry::Native(NativeItem::Quit),
    ]
}

/// The application's menu bar: one enabled submenu, `App`.
pub open spec fn app_menu() -> Seq<SubmenuView> {
    seq![SubmenuView { title: "App"@, enabled: true, entries: app_entries() }]
}

/// The label of the library's own item.
pub fn close_window_label() -> (r: &'static str)
    ensures
        r@ == "CloseWindow"@,
{
    "CloseWindow"
}

/// The shortcut of the library's own item: the command key with W.
pub fn close_window_accelerator() -> (r: Accelerator)
    ensures
        r == (Accelerator { modifier: Modifier::Cmd, key: Key::W }),
{
    Accelerator { modifier: Modifier::Cmd, key: Key::W }
}

/// Makes the application's menu bar.
pub fn build_menu() -> (r: MenuModel)
    ensures
        r@ == app_menu(),
{
    let entries = vec![
        MenuEntry::Native(NativeItem::Hide),
        MenuEntry::Native(NativeItem::EnterFullScreen),
        MenuEntry::Native(NativeItem::Minimize),
        MenuEntry::Native(NativeItem::Separator),
        MenuEntry::Native(NativeItem::Copy),
        MenuEntry::Native(NativeItem::Cut),
        MenuEntry::Native(NativeItem::Paste),
        MenuEntry::Native(NativeItem::Undo),
        MenuEntry::Native(NativeItem::Redo),
        MenuEntry::Native(NativeItem::SelectAll),
        MenuEntry::Native(NativeItem::Separator),
        MenuEntry::CloseWindow,
        MenuEntry::Native(NativeItem::Quit),
    ];
    assert(entries@ =~= app_entries());
    let app = Submenu { title: "App".to_owned(), enabled: true, entries };
    let submenus = vec![app];
    let r = MenuModel { submenus };
    assert(r@ =~= app_menu());
    r
}

} // verus!
