//! The application's native menu bar as a platform-aware tree of plain data:
//! submenus of predefined actions, separators, and custom entries, each custom
//! entry carrying the string identifier that the frontend's event handler
//! knows it by.

use vstd::prelude::*;

verus! {

/// Identifier of a custom menu entry, forwarded verbatim to the frontend
/// when the entry is clicked.
#[derive(Clone, Copy, PartialEq, Eq, Structural, Debug)]
pub enum MenuId {
    MetronomeToggle,
    MetronomePlay,
    MetronomeTempoDown,
    MetronomeTempoUp,
    HelpShortcuts,
}

impl MenuId {
    /// The string tag that crosses the native/frontend boundary.
    pub open spec fn id_view(self) -> Seq<char> {
        match self {
            MenuId::MetronomeToggle => "metronome_toggle"@,
            MenuId::MetronomePlay => "metronome_play"@,
            MenuId::MetronomeTempoDown => "metronome_tempo_down"@,
            MenuId::MetronomeTempoUp => "metronome_tempo_up"@,
            MenuId::HelpShortcuts => "help_shortcuts"@,
        }
    }

    /// The identifier as the string handed to the host shell and the frontend.
    pub fn id_str(self) -> (r: &'static str)
        ensures
            r@ == self.id_view(),
    {
        match self {
            MenuId::MetronomeToggle => "metronome_toggle",
            MenuId::MetronomePlay => "metronome_play",
            MenuId::MetronomeTempoDown => "metronome_tempo_down",
            MenuId::MetronomeTempoUp => "metronome_tempo_up",
            MenuId::HelpShortcuts => "help_shortcuts",
        }
    }
}

/// Distinct identifiers carry distinct string tags, so an identifier's tag
/// names its menu entry unambiguously.
pub proof fn lemma_menu_id_injective(a: MenuId, b: MenuId)
    requires
        a != b,
    ensures
        a.id_view() != b.id_view(),
{
    reveal_strlit("metronome_toggle");
    reveal_strlit("metronome_play");
    reveal_strlit("metronome_tempo_down");
    reveal_strlit("metronome_tempo_up");
    reveal_strlit("help_shortcuts");
    assert("metronome_play"@[0] == 'm');
    assert("help_shortcuts"@[0] == 'h');
    assert("metronome_toggle"@.len() == 16);
    assert("metronome_play"@.len() == 14);
    assert("metronome_tempo_down"@.len() == 20);
    assert("metronome_tempo_up"@.len() == 18);
    assert("help_shortcuts"@.len() == 14);
    assert("metronome_play"@ != "help_shortcuts"@);
}

/// An action whose behaviour the host shell supplies ready-made.
#[derive(Clone, Copy, PartialEq, Eq, Structural, Debug)]
pub enum PredefinedAction {
    About,
    Services,
    Hide,
    HideOthers,
    ShowAll,
    Quit,
    CloseWindow,
    Undo,
    Redo,
    Cut,
    CopySelection,
    Paste,
    SelectAll,
    Fullscreen,
    Minimize,
    Maximize,
}

/// A custom menu entry: an identifier, a visible label, and an optional
/// keyboard accelerator.
#[derive(Clone, Copy, Debug)]
pub struct CustomItem {
    pub id: MenuId,
    pub label: &'static str,
    pub accelerator: Option<&'static str>,
}

/// One entry of a submenu.
#[derive(Clone, Copy, Debug)]
pub enum MenuItem {
    /// A predefined action, optionally shown under a text of its own.
    Predefined { action: PredefinedAction, text: Option<&'static str> },
    /// A custom entry that emits its identifier when clicked.
    Custom(CustomItem),
    /// A visual divider between groups of entries.
    Separator,
}

/// Mathematical value of one menu entry, with every string as its
/// character sequence.
#[verifier::ext_equal]
pub enum ItemView {
    Predefined { action: PredefinedAction, text: Option<Seq<char>> },
    Custom { id: MenuId, label: Seq<char>, accelerator: Option<Seq<char>> },
    Separator,
}

/// Mathematical value of a submenu: its title and its entries, in order.
#[verifier::ext_equal]
pub struct SubmenuView {
    pub title: Seq<char>,
    pub items: Seq<ItemView>,
}

impl View for MenuItem {
    type V = ItemView;

    open spec fn view(&self) -> ItemView {
        match *self {
            MenuItem::Predefined { action, text } => (ItemView::Predefined {
                action,
                text: match text {
                    Some(t) => Some(t@),
                    None => None,
                },
            }),
            MenuItem::Custom(c) => (ItemView::Custom {
                id: c.id,
                label: c.label@,
                accelerator: match c.accelerator {
                    Some(a) => Some(a@),
                    None => None,
                },
            }),
            MenuItem::Separator => ItemView::Separator,
        }
    }
}

/// A titled submenu of the menu bar.
#[derive(Debug)]
pub struct Submenu {
    pub title: &'static str,
    pub items: Vec<MenuItem>,
}

impl View for Submenu {
    type V = SubmenuView;

    open spec fn view(&self) -> SubmenuView {
        (SubmenuView {
            title: self.title@,
            items: self.items@.map_values(|it: MenuItem| it@),
        })
    }
}

/// The whole menu bar: its submenus, in order.
#[derive(Debug)]
pub struct Menu {
    pub submenus: Vec<Submenu>,
}

impl View for Menu {
    type V = Seq<SubmenuView>;

    open spec fn view(&self) -> Seq<SubmenuView> {
        self.submenus@.map_values(|s: Submenu| s@)
    }
}

/// The application submenu, shown only under the macOS menu bar.
pub open spec fn spec_app_submenu() -> SubmenuView {
    SubmenuView {
        title: "Chops"@,
        items: seq![
            ItemView::Predefined { action: PredefinedAction::About, text: Some("About Chops"@) },
            ItemView::Separator,
            ItemView::Predefined { action: PredefinedAction::Services, text: None },
            ItemView::Separator,
            ItemView::Predefined { action: PredefinedAction::Hide, text: None },
            ItemView::Predefined { action: PredefinedAction::HideOthers, text: None },
            ItemView::Predefined { action: PredefinedAction::ShowAll, text: None },
            ItemView::Separator,
            ItemView::Predefined { action: PredefinedAction::Quit, text: None },
        ],
    }
}

/// The File submenu.
pub open spec fn spec_file_submenu() -> SubmenuView {
    SubmenuView {
        title: "File"@,
        items: seq![
            ItemView::Predefined { action: PredefinedAction::CloseWindow, text: None },
        ],
    }
}

/// The Edit submenu.
pub open spec fn spec_edit_submenu() -> SubmenuView {
    SubmenuView {
        title: "Edit"@,
        items: seq![
            ItemView::Predefined { action: PredefinedAction::Undo, text: None },
            ItemView::Predefined { action: PredefinedAction::Redo, text: None },
            ItemView::Separator,
            ItemView::Predefined { action: PredefinedAction::Cut, text: None },
            ItemView::Predefined { action: PredefinedAction::CopySelection, text: None },
            ItemView::Predefined { action: PredefinedAction::Paste, text: None },
            ItemView::Predefined { action: PredefinedAction::SelectAll, text: None },
        ],
    }
}

/// The View submenu, shown only under the macOS menu bar.
pub open spec fn spec_view_submenu() -> SubmenuView {
    SubmenuView {
        title: "View"@,
        items: seq![
            ItemView::Predefined { action: PredefinedAction::Fullscreen, text: None },
        ],
    }
}

/// The Window submenu.
pub open spec fn spec_window_submenu() -> SubmenuView {
    SubmenuView {
        title: "Window"@,
        items: seq![
            ItemView::Predefined { action: PredefinedAction::Minimize, text: None },
            ItemView::Predefined { action: PredefinedAction::Maximize, text: None },
            ItemView::Separator,
            ItemView::Predefined { action: PredefinedAction::CloseWindow, text: None },
        ],
    }
}

/// The Practice submenu, whose custom entries drive the metronome.
pub open spec fn spec_practice_submenu() -> SubmenuView {
    SubmenuView {
        title: "Practice"@,
        items: seq![
            ItemView::Custom {
                id: MenuId::MetronomeToggle,
                label: "Open/Close Metronome"@,
                accelerator: Some("M"@),
            },
            ItemView::Custom {
                id: MenuId::MetronomePlay,
                label: "Start/Stop Metronome"@,
                accelerator: Some("K"@),
            },
            ItemView::Separator,
            ItemView::Custom {
                id: MenuId::MetronomeTempoDown,
                label: "Decrease Tempo"@,
                accelerator: Some("["@),
            },
            ItemView::Custom {
                id: MenuId::MetronomeTempoUp,
                label: "Increase Tempo"@,
                accelerator: Some("]"@),
            },
        ],
    }
}

/// The Help submenu.
pub open spec fn spec_help_submenu() -> SubmenuView {
    SubmenuView {
        title: "Help"@,
        items: seq![
            ItemView::Custom {
                id: MenuId::HelpShortcuts,
                label: "Keyboard Shortcuts"@,
                accelerator: Some("?"@),
            },
        ],
    }
}

/// The whole menu bar: on macOS the application submenu and the View submenu
/// appear, elsewhere they are omitted.
pub open spec fn spec_app_menu(macos: bool) -> Seq<SubmenuView> {
    if macos {
        seq![
            spec_app_submenu(),
            spec_file_submenu(),
            spec_edit_submenu(),
            spec_view_submenu(),
            spec_practice_submenu(),
            spec_window_submenu(),
            spec_help_submenu(),
        ]
    } else {
        seq![
            spec_file_submenu(),
            spec_edit_submenu(),
            spec_practice_submenu(),
            spec_window_submenu(),
            spec_help_submenu(),
        ]
    }
}

/// Build the Practice submenu.
pub fn practice_submenu() -> (s: Submenu)
    ensures
        s@ =~~= spec_practice_submenu(),
{
    let mut items: Vec<MenuItem> = Vec::new();
    items.push(MenuItem::Custom(CustomItem {
        id: MenuId::MetronomeToggle,
        label: "Open/Close Metronome",
        accelerator: Some("M"),
    }));
    items.push(MenuItem::Custom(CustomItem {
        id: MenuId::MetronomePlay,
        label: "Start/Stop Metronome",
        accelerator: Some("K"),
    }));
    items.push(MenuItem::Separator);
    items.push(MenuItem::Custom(CustomItem {
        id: MenuId::MetronomeTempoDown,
        label: "Decrease Tempo",
        accelerator: Some("["),
    }));
    items.push(MenuItem::Custom(CustomItem {
        id: MenuId::MetronomeTempoUp,
        label: "Increase Tempo",
        accelerator: Some("]"),
    }));
    Submenu { title: "Practice", items }
}

/// Build the application submenu (macOS menu bars only).
pub fn app_submenu() -> (s: Submenu)
    ensures
        s@ =~~= spec_app_submenu(),
{
    let mut items: Vec<MenuItem> = Vec::new();
    items.push(MenuItem::Predefined {
        action: PredefinedAction::About,
        text: Some("About Chops"),
    });
    items.push(MenuItem::Separator);
    items.push(MenuItem::Predefined { action: PredefinedAction::Services, text: None });
    items.push(MenuItem::Separator);
    items.push(MenuItem::Predefined { action: PredefinedAction::Hide, text: None });
    items.push(MenuItem::Predefined { action: PredefinedAction::HideOthers, text: None });
    items.push(MenuItem::Predefined { action: PredefinedAction::ShowAll, text: None });
    items.push(MenuItem::Separator);
    items.push(MenuItem::Predefined { action: PredefinedAction::Quit, text: None });
    Submenu { title: "Chops", items }
}

/// Build the File submenu.
pub fn file_submenu() -> (s: Submenu)
    ensures
        s@ =~~= spec_file_submenu(),
{
    let mut items: Vec<MenuItem> = Vec::new();
    items.push(MenuItem::Predefined { action: PredefinedAction::CloseWindow, text: None });
    Submenu { title: "File", items }
}

/// Build the Edit submenu.
pub fn edit_submenu() -> (s: Submenu)
    ensures
        s@ =~~= spec_edit_submenu(),
{
    let mut items: Vec<MenuItem> = Vec::new();
    items.push(MenuItem::Predefined { action: PredefinedAction::Undo, text: None });
    items.push(MenuItem::Predefined { action: PredefinedAction::Redo, text: None });
    items.push(MenuItem::Separator);
    items.push(MenuItem::Predefined { action: PredefinedAction::Cut, text: None });
    items.push(MenuItem::Predefined { action: PredefinedAction::CopySelection, text: None });
    items.push(MenuItem::Predefined { action: PredefinedAction::Paste, text: None });
    items.push(MenuItem::Predefined { action: PredefinedAction::SelectAll, text: None });
    Submenu { title: "Edit", items }
}

/// Build the View submenu (macOS menu bars only).
pub fn view_submenu() -> (s: Submenu)
    ensures
        s@ =~~= spec_view_submenu(),
{
    let mut items: Vec<MenuItem> = Vec::new();
    items.push(MenuItem::Predefined { action: PredefinedAction::Fullscreen, text: None });
    Submenu { title: "View", items }
}

/// Build the Window submenu.
pub fn window_submenu() -> (s: Submenu)
    ensures
        s@ =~~= spec_window_submenu(),
{
    let mut items: Vec<MenuItem> = Vec::new();
    items.push(MenuItem::Predefined { action: PredefinedAction::Minimize, text: None });
    items.push(MenuItem::Predefined { action: PredefinedAction::Maximize, text: None });
    items.push(MenuItem::Separator);
    items.push(MenuItem::Predefined { action: PredefinedAction::CloseWindow, text: None });
    Submenu { title: "Window", items }
}

/// Build the Help submenu.
pub fn help_submenu() -> (s: Submenu)
    ensures
        s@ =~~= spec_help_submenu(),
{
    let mut items: Vec<MenuItem> = Vec::new();
    items.push(MenuItem::Custom(CustomItem {
        id: MenuId::HelpShortcuts,
        label: "Keyboard Shortcuts",
        accelerator: Some("?"),
    }));
    Submenu { title: "Help", items }
}

/// Build the whole menu bar for the given platform: on macOS the application
/// and View submenus are included, elsewhere they are omitted.
pub fn create_app_menu(macos: bool) -> (m: Menu)
    ensures
        m@ =~~= spec_app_menu(macos),
{
    let mut submenus: Vec<Submenu> = Vec::new();
    if macos {
        submenus.push(app_submenu());
        submenus.push(file_submenu());
        submenus.push(edit_submenu());
        submenus.push(view_submenu());
        submenus.push(practice_submenu());
        submenus.push(window_submenu());
        submenus.push(help_submenu());
    } else {
        submenus.push(file_submenu());
        submenus.push(edit_submenu());
        submenus.push(practice_submenu());
        submenus.push(window_submenu());
        submenus.push(help_submenu());
    }
    Menu { submenus }
}

/// The identifier of a custom entry, and nothing of the other entries.
pub open spec fn item_custom_id(it: ItemView) -> Option<MenuId> {
    match it {
        ItemView::Custom { id, .. } => Some(id),
        _ => None,
    }
}

/// The identifiers of the custom entries among `items`, in order.
pub open spec fn custom_ids_of_items(items: Seq<ItemView>) -> Seq<MenuId>
    decreases items.len(),
{
    if items.len() == 0 {
        Seq::empty()
    } else {
        custom_ids_of_items(items.drop_last()) + (match item_custom_id(items.last()) {
            Some(id) => seq![id],
            None => Seq::empty(),
        })
    }
}

/// The identifiers of all custom entries of the menu bar, submenu by
/// submenu, in order.
pub open spec fn custom_ids_of_menu(subs: Seq<SubmenuView>) -> Seq<MenuId>
    decreases subs.len(),
{
    if subs.len() == 0 {
        Seq::empty()
    } else {
        custom_ids_of_menu(subs.drop_last()) + custom_ids_of_items(subs.last().items)
    }
}

proof fn lemma_ids_of_app_submenu()
    ensures
        custom_ids_of_items(spec_app_submenu().items) =~= Seq::<MenuId>::empty(),
{
    reveal_with_fuel(custom_ids_of_items, 10);
}

proof fn lemma_ids_of_file_submenu()
    ensures
        custom_ids_of_items(spec_file_submenu().items) =~= Seq::<MenuId>::empty(),
{
    reveal_with_fuel(custom_ids_of_items, 2);
}

proof fn lemma_ids_of_edit_submenu()
    ensures
        custom_ids_of_items(spec_edit_submenu().items) =~= Seq::<MenuId>::empty(),
{
    reveal_with_fuel(custom_ids_of_items, 8);
}

proof fn lemma_ids_of_view_submenu()
    ensures
        custom_ids_of_items(spec_view_submenu().items) =~= Seq::<MenuId>::empty(),
{
    reveal_with_fuel(custom_ids_of_items, 2);
}

proof fn lemma_ids_of_window_submenu()
    ensures
        custom_ids_of_items(spec_window_submenu().items) =~= Seq::<MenuId>::empty(),
{
    reveal_with_fuel(custom_ids_of_items, 5);
}

proof fn lemma_ids_of_practice_submenu()
    ensures
        custom_ids_of_items(spec_practice_submenu().items) =~= seq![
            MenuId::MetronomeToggle,
            MenuId::MetronomePlay,
            MenuId::MetronomeTempoDown,
            MenuId::MetronomeTempoUp,
        ],
{
    reveal_with_fuel(custom_ids_of_items, 6);
}

proof fn lemma_ids_of_help_submenu()
    ensures
        custom_ids_of_items(spec_help_submenu().items) =~= seq![MenuId::HelpShortcuts],
{
    reveal_with_fuel(custom_ids_of_items, 2);
}

/// On either platform the menu bar's custom entries carry, in order, exactly
/// the five known identifiers, each one once; and since distinct identifiers
/// carry distinct string tags, the strings crossing to the frontend are
/// pairwise distinct.
pub proof fn lemma_menu_ids_unique(macos: bool)
    ensures
        custom_ids_of_menu(spec_app_menu(macos)) =~= seq![
            MenuId::MetronomeToggle,
            MenuId::MetronomePlay,
            MenuId::MetronomeTempoDown,
            MenuId::MetronomeTempoUp,
            MenuId::HelpShortcuts,
        ],
        forall|i: int, j: int|
            0 <= i < j < custom_ids_of_menu(spec_app_menu(macos)).len() ==> custom_ids_of_menu(
                spec_app_menu(macos),
            )[i].id_view() != custom_ids_of_menu(spec_app_menu(macos))[j].id_view(),
{
    reveal_with_fuel(custom_ids_of_menu, 8);
    lemma_ids_of_app_submenu();
    lemma_ids_of_file_submenu();
    lemma_ids_of_edit_submenu();
    lemma_ids_of_view_submenu();
    lemma_ids_of_window_submenu();
    lemma_ids_of_practice_submenu();
    lemma_ids_of_help_submenu();
    let ids = custom_ids_of_menu(spec_app_menu(macos));
    assert(ids =~= seq![
        MenuId::MetronomeToggle,
        MenuId::MetronomePlay,
        MenuId::MetronomeTempoDown,
        MenuId::MetronomeTempoUp,
        MenuId::HelpShortcuts,
    ]);
    assert forall|i: int, j: int| 0 <= i < j < ids.len() implies ids[i].id_view()
        != ids[j].id_view() by {
        lemma_menu_id_injective(ids[i], ids[j]);
    }
}

proof fn lemma_custom_ids_of_items_step(items: Seq<ItemView>, j: int)
    requires
        0 <= j < items.len(),
    ensures
        custom_ids_of_items(items.take(j + 1)) =~= custom_ids_of_items(items.take(j)) + (match item_custom_id(items[j]) {
            Some(id) => seq![id],
            None => Seq::empty(),
        }),
{
    let t = items.take(j + 1);
    assert(t.drop_last() =~= items.take(j));
    assert(t.last() == items[j]);
}

proof fn lemma_custom_ids_of_menu_step(subs: Seq<SubmenuView>, i: int)
    requires
        0 <= i < subs.len(),
    ensures
        custom_ids_of_menu(subs.take(i + 1)) =~= custom_ids_of_menu(subs.take(i))
            + custom_ids_of_items(subs[i].items),
{
    let t = subs.take(i + 1);
    assert(t.drop_last() =~= subs.take(i));
    assert(t.last() == subs[i]);
}

/// Collect the identifiers of every custom entry of the menu bar, in order.
pub fn collect_custom_ids(m: &Menu) -> (ids: Vec<MenuId>)
    ensures
        ids@ =~= custom_ids_of_menu(m@),
{
    let mut ids: Vec<MenuId> = Vec::new();
    let mut i: usize = 0;
    while i < m.submenus.len()
        invariant
            i <= m.submenus.len(),
            ids@ =~= custom_ids_of_menu(m@.take(i as int)),
        decreases m.submenus.len() - i,
    {
        let sub = &m.submenus[i];
        let mut j: usize = 0;
        while j < sub.items.len()
            invariant
                i < m.submenus.len(),
                j <= sub.items.len(),
                sub == m.submenus[i as int],
                ids@ =~= custom_ids_of_menu(m@.take(i as int)) + custom_ids_of_items(
                    sub@.items.take(j as int),
                ),
            decreases sub.items.len() - j,
        {
            match sub.items[j] {
                MenuItem::Custom(c) => ids.push(c.id),
                _ => (),
            }
            proof {
                lemma_custom_ids_of_items_step(sub@.items, j as int);
            }
            j += 1;
        }
        proof {
            lemma_custom_ids_of_menu_step(m@, i as int);
            assert(sub@.items.take(sub.items@.len() as int) =~= sub@.items);
            assert(m@[i as int] == sub@);
        }
        i += 1;
    }
    proof {
        assert(m@.take(m@.len() as int) =~= m@);
    }
    ids
}

} // verus!
