//! The pet's right-click menu: its items, their states, and the business
//! actions that their identifiers stand for.

use crate::text::str_eq;
use vstd::prelude::*;

verus! {

/// Identifier of the pet-layer submenu.
pub const PET_LAYER: &'static str = "pet.layer";
pub const PET_LAYER_TOP: &'static str = "pet.layer.top";
pub const PET_LAYER_NORMAL: &'static str = "pet.layer.normal";
pub const PET_LAYER_BOTTOM: &'static str = "pet.layer.bottom";
pub const OPEN_SETTINGS: &'static str = "pet.open_settings";
pub const OPEN_HUD: &'static str = "pet.open_hud";
pub const HUD_LAYOUT: &'static str = "pet.hud_layout";
/// Identifier of the HUD-layer submenu.
pub const HUD_LAYER: &'static str = "pet.hud_layer";
pub const HUD_LAYER_TOP: &'static str = "pet.hud_layer.top";
pub const HUD_LAYER_NORMAL: &'static str = "pet.hud_layer.normal";
pub const HUD_LAYER_BOTTOM: &'static str = "pet.hud_layer.bottom";
pub const EXIT_APPLICATION: &'static str = "pet.exit_application";

/// Stacking level of a native window.
#[derive(Clone, Copy, Debug, PartialEq, Eq, Structural)]
pub enum WindowLayer {
    AlwaysOnTop,
    Normal,
    AlwaysOnBottom,
}

/// Stacking level as stored in the user's preferences.
#[derive(Clone, Copy, Debug, PartialEq, Eq, Structural)]
pub enum LayerPreference {
    Top,
    Normal,
    Bottom,
}

/// The window layer that a stored preference selects.
pub open spec fn spec_window_layer(layer: LayerPreference) -> WindowLayer {
    match layer {
        LayerPreference::Top => WindowLayer::AlwaysOnTop,
        LayerPreference::Normal => WindowLayer::Normal,
        LayerPreference::Bottom => WindowLayer::AlwaysOnBottom,
    }
}

/// Converts a stored layer preference into a window layer.
pub fn window_layer(layer: LayerPreference) -> (r: WindowLayer)
    ensures
        r == spec_window_layer(layer),
{
    match layer {
        LayerPreference::Top => WindowLayer::AlwaysOnTop,
        LayerPreference::Normal => WindowLayer::Normal,
        LayerPreference::Bottom => WindowLayer::AlwaysOnBottom,
    }
}

/// Catalog keys of the shell's fixed texts used by the editor and the menus.
#[derive(Clone, Copy, Debug, PartialEq, Eq, Structural)]
pub enum MessageKey {
    MenuSettings,
    SettingsPetLayer,
    MenuLayerTop,
    MenuLayerNormal,
    MenuLayerBottom,
    SettingsNavHud,
    MenuPluginLayer,
    MenuHudLayout,
    MenuQuit,
    HudLayoutInformationTree,
    HudLayoutActiveTree,
    HudAdjustSnapGrid,
    HudAdjustLockRatio,
    HudGroupCreate,
    HudLayoutDone,
    HudLayoutCancel,
    HudAdjustResetPosition,
    HudAdjustResetSize,
    HudGroupDelete,
    HudLayoutCloseInformation,
}

/// A business action that a pet-menu item requests.
#[derive(Clone, Copy, Debug, PartialEq, Eq, Structural)]
pub enum PetMenuAction {
    /// Change the pet window's layer.
    SetPetLayer(WindowLayer),
    /// Open the settings window.
    OpenSettings,
    /// Show or hide the HUD.
    OpenHud,
    /// Enter the HUD layout editor.
    HudLayout,
    /// Change the HUD window's layer.
    SetHudLayer(WindowLayer),
    /// Quit the application.
    ExitApplication,
}

/// One menu entry. Its label is a catalog key, translated when drawn.
#[derive(Debug)]
pub struct MenuItem {
    pub id: &'static str,
    pub label: MessageKey,
    pub icon: Option<&'static str>,
    pub checkable: bool,
    pub checked: bool,
    pub enabled: bool,
    pub separator_before: bool,
    pub submenu: Option<MenuDefinition>,
}

/// A menu: its entries from top to bottom.
#[derive(Debug)]
pub struct MenuDefinition {
    pub items: Vec<MenuItem>,
}

/// `item` has exactly these plain attributes.
pub open spec fn item_is(
    item: MenuItem,
    id: &'static str,
    label: MessageKey,
    icon: Option<&'static str>,
    checkable: bool,
    checked: bool,
    enabled: bool,
    separator_before: bool,
) -> bool {
    &&& item.id@ == id@
    &&& item.label == label
    &&& match (item.icon, icon) {
        (Some(a), Some(b)) => a@ == b@,
        (None, None) => true,
        _ => false,
    }
    &&& item.checkable == checkable
    &&& item.checked == checked
    &&& item.enabled == enabled
    &&& item.separator_before == separator_before
}

/// A layer submenu: top, normal and bottom, each checkable, enabled and
/// without separator, with exactly the entry of `current` checked.
pub open spec fn is_layer_submenu(
    menu: MenuDefinition,
    top: &'static str,
    normal: &'static str,
    bottom: &'static str,
    current: WindowLayer,
) -> bool {
    &&& menu.items.len() == 3
    &&& item_is(menu.items[0], top, MessageKey::MenuLayerTop, None, true, current == WindowLayer::AlwaysOnTop, true, false)
    &&& item_is(menu.items[1], normal, MessageKey::MenuLayerNormal, None, true, current == WindowLayer::Normal, true, false)
    &&& item_is(menu.items[2], bottom, MessageKey::MenuLayerBottom, None, true, current == WindowLayer::AlwaysOnBottom, true, false)
    &&& menu.items[0].submenu is None
    &&& menu.items[1].submenu is None
    &&& menu.items[2].submenu is None
}

/// The pet menu for the given window layers and HUD state: settings; the
/// pet-layer submenu; the HUD switch (checked when the HUD is enabled, after
/// a separator); the HUD-layer submenu and the layout entry (both enabled
/// only while the HUD is enabled); and quit (after a separator).
pub open spec fn is_pet_menu(menu: MenuDefinition, pet_layer: WindowLayer, hud_layer: WindowLayer, hud_enabled: bool) -> bool {
    &&& menu.items.len() == 6
    &&& item_is(menu.items[0], OPEN_SETTINGS, MessageKey::MenuSettings, Some("brightness"), false, false, true, false)
    &&& menu.items[0].submenu is None
    &&& item_is(menu.items[1], PET_LAYER, MessageKey::SettingsPetLayer, Some("layers-subtract"), false, false, true, false)
    &&& menu.items[1].submenu matches Some(sub) && is_layer_submenu(sub, PET_LAYER_TOP, PET_LAYER_NORMAL, PET_LAYER_BOTTOM, pet_layer)
    &&& item_is(menu.items[2], OPEN_HUD, MessageKey::SettingsNavHud, Some("puzzle"), true, hud_enabled, true, true)
    &&& menu.items[2].submenu is None
    &&& item_is(menu.items[3], HUD_LAYER, MessageKey::MenuPluginLayer, Some("layers-subtract"), false, false, hud_enabled, false)
    &&& menu.items[3].submenu matches Some(sub) && is_layer_submenu(sub, HUD_LAYER_TOP, HUD_LAYER_NORMAL, HUD_LAYER_BOTTOM, hud_layer)
    &&& item_is(menu.items[4], HUD_LAYOUT, MessageKey::MenuHudLayout, Some("window"), false, false, hud_enabled, false)
    &&& menu.items[4].submenu is None
    &&& item_is(menu.items[5], EXIT_APPLICATION, MessageKey::MenuQuit, Some("close"), false, false, true, true)
    &&& menu.items[5].submenu is None
}

impl MenuItem {
    /// A plain, enabled entry.
    pub fn new(id: &'static str, label: MessageKey) -> (item: MenuItem)
        ensures
            item_is(item, id, label, None, false, false, true, false),
            item.submenu is None,
    {
        MenuItem {
            id,
            label,
            icon: None,
            checkable: false,
            checked: false,
            enabled: true,
            separator_before: false,
            submenu: None,
        }
    }

    /// An enabled entry that shows a check mark when `checked`.
    pub fn checkable(id: &'static str, label: MessageKey, checked: bool) -> (item: MenuItem)
        ensures
            item_is(item, id, label, None, true, checked, true, false),
            item.submenu is None,
    {
        MenuItem {
            id,
            label,
            icon: None,
            checkable: true,
            checked,
            enabled: true,
            separator_before: false,
            submenu: None,
        }
    }

    /// The same entry with an icon.
    pub fn with_icon(self, icon: &'static str) -> (item: MenuItem)
        ensures
            item == (MenuItem { icon: Some(icon), ..self }),
    {
        MenuItem { icon: Some(icon), ..self }
    }

    /// The same entry, enabled or disabled.
    pub fn with_enabled(self, enabled: bool) -> (item: MenuItem)
        ensures
            item == (MenuItem { enabled, ..self }),
    {
        MenuItem { enabled, ..self }
    }

    /// The same entry preceded by a separator.
    pub fn with_separator_before(self) -> (item: MenuItem)
        ensures
            item == (MenuItem { separator_before: true, ..self }),
    {
        MenuItem { separator_before: true, ..self }
    }

    /// The same entry opening a submenu.
    pub fn with_submenu(self, submenu: MenuDefinition) -> (item: MenuItem)
        ensures
            item == (MenuItem { submenu: Some(submenu), ..self }),
    {
        MenuItem { submenu: Some(submenu), ..self }
    }
}

fn layer_submenu(
    top: &'static str,
    normal: &'static str,
    bottom: &'static str,
    current: WindowLayer,
) -> (menu: MenuDefinition)
    ensures
        is_layer_submenu(menu, top, normal, bottom, current),
{
    let mut items: Vec<MenuItem> = Vec::new();
    items.push(MenuItem::checkable(top, MessageKey::MenuLayerTop, current == WindowLayer::AlwaysOnTop));
    items.push(MenuItem::checkable(normal, MessageKey::MenuLayerNormal, current == WindowLayer::Normal));
    items.push(MenuItem::checkable(bottom, MessageKey::MenuLayerBottom, current == WindowLayer::AlwaysOnBottom));
    MenuDefinition { items }
}

/// Builds the pet menu for the current pet and HUD window layers and
/// whether the HUD is enabled.
pub fn definition(pet_layer: WindowLayer, hud_layer: WindowLayer, hud_enabled: bool) -> (menu: MenuDefinition)
    ensures
        is_pet_menu(menu, pet_layer, hud_layer, hud_enabled),
{
    let mut items: Vec<MenuItem> = Vec::new();
    items.push(MenuItem::new(OPEN_SETTINGS, MessageKey::MenuSettings).with_icon("brightness"));
    items.push(
        MenuItem::new(PET_LAYER, MessageKey::SettingsPetLayer)
            .with_submenu(layer_submenu(PET_LAYER_TOP, PET_LAYER_NORMAL, PET_LAYER_BOTTOM, pet_layer))
            .with_icon("layers-subtract"),
    );
    items.push(
        MenuItem::checkable(OPEN_HUD, MessageKey::SettingsNavHud, hud_enabled)
            .with_icon("puzzle")
            .with_separator_before(),
    );
    items.push(
        MenuItem::new(HUD_LAYER, MessageKey::MenuPluginLayer)
            .with_enabled(hud_enabled)
            .with_submenu(layer_submenu(HUD_LAYER_TOP, HUD_LAYER_NORMAL, HUD_LAYER_BOTTOM, hud_layer))
            .with_icon("layers-subtract"),
    );
    items.push(
        MenuItem::new(HUD_LAYOUT, MessageKey::MenuHudLayout)
            .with_icon("window")
            .with_enabled(hud_enabled),
    );
    items.push(
        MenuItem::new(EXIT_APPLICATION, MessageKey::MenuQuit)
            .with_icon("close")
            .with_separator_before(),
    );
    MenuDefinition { items }
}

/// The action that a menu identifier stands for; submenu headers and
/// unknown identifiers stand for none.
pub open spec fn spec_parse_action(id: Seq<char>) -> Option<PetMenuAction> {
    if id == PET_LAYER_TOP@ {
        Some(PetMenuAction::SetPetLayer(WindowLayer::AlwaysOnTop))
    } else if id == PET_LAYER_NORMAL@ {
        Some(PetMenuAction::SetPetLayer(WindowLayer::Normal))
    } else if id == PET_LAYER_BOTTOM@ {
        Some(PetMenuAction::SetPetLayer(WindowLayer::AlwaysOnBottom))
    } else if id == OPEN_SETTINGS@ {
        Some(PetMenuAction::OpenSettings)
    } else if id == OPEN_HUD@ {
        Some(PetMenuAction::OpenHud)
    } else if id == HUD_LAYOUT@ {
        Some(PetMenuAction::HudLayout)
    } else if id == HUD_LAYER_TOP@ {
        Some(PetMenuAction::SetHudLayer(WindowLayer::AlwaysOnTop))
    } else if id == HUD_LAYER_NORMAL@ {
        Some(PetMenuAction::SetHudLayer(WindowLayer::Normal))
    } else if id == HUD_LAYER_BOTTOM@ {
        Some(PetMenuAction::SetHudLayer(WindowLayer::AlwaysOnBottom))
    } else if id == EXIT_APPLICATION@ {
        Some(PetMenuAction::ExitApplication)
    } else {
        None
    }
}

/// Converts the identifier of a clicked menu item into the pet action it
/// requests.
pub fn parse_action(id: &str) -> (r: Option<PetMenuAction>)
    ensures
        r == spec_parse_action(id@),
{
    if str_eq(id, PET_LAYER_TOP) {
        Some(PetMenuAction::SetPetLayer(WindowLayer::AlwaysOnTop))
    } else if str_eq(id, PET_LAYER_NORMAL) {
        Some(PetMenuAction::SetPetLayer(WindowLayer::Normal))
    } else if str_eq(id, PET_LAYER_BOTTOM) {
        Some(PetMenuAction::SetPetLayer(WindowLayer::AlwaysOnBottom))
    } else if str_eq(id, OPEN_SETTINGS) {
        Some(PetMenuAction::OpenSettings)
    } else if str_eq(id, OPEN_HUD) {
        Some(PetMenuAction::OpenHud)
    } else if str_eq(id, HUD_LAYOUT) {
        Some(PetMenuAction::HudLayout)
    } else if str_eq(id, HUD_LAYER_TOP) {
        Some(PetMenuAction::SetHudLayer(WindowLayer::AlwaysOnTop))
    } else if str_eq(id, HUD_LAYER_NORMAL) {
        Some(PetMenuAction::SetHudLayer(WindowLayer::Normal))
    } else if str_eq(id, HUD_LAYER_BOTTOM) {
        Some(PetMenuAction::SetHudLayer(WindowLayer::AlwaysOnBottom))
    } else if str_eq(id, EXIT_APPLICATION) {
        Some(PetMenuAction::ExitApplication)
    } else {
        None
    }
}

/// The lengths of the menu identifiers and the characters that tell apart
/// those of equal length.
proof fn lemma_menu_id_shapes()
    ensures
        PET_LAYER@.len() == 9,
        PET_LAYER_TOP@.len() == 13,
        PET_LAYER_NORMAL@.len() == 16,
        PET_LAYER_BOTTOM@.len() == 16,
        OPEN_SETTINGS@.len() == 17,
        OPEN_HUD@.len() == 12,
        HUD_LAYOUT@.len() == 14,
        HUD_LAYER@.len() == 13,
        HUD_LAYER_TOP@.len() == 17,
        HUD_LAYER_NORMAL@.len() == 20,
        HUD_LAYER_BOTTOM@.len() == 20,
        EXIT_APPLICATION@.len() == 20,
        PET_LAYER_TOP@[4] == 'l',
        HUD_LAYER@[4] == 'h',
        PET_LAYER_NORMAL@[10] == 'n',
        PET_LAYER_BOTTOM@[10] == 'b',
        OPEN_SETTINGS@[4] == 'o',
        HUD_LAYER_TOP@[4] == 'h',
        HUD_LAYER_NORMAL@[14] == 'n',
        HUD_LAYER_BOTTOM@[14] == 'b',
        EXIT_APPLICATION@[4] == 'e',
        HUD_LAYER_NORMAL@[4] == 'h',
        HUD_LAYER_BOTTOM@[4] == 'h',
{
    broadcast use vstd::string::group_string_axioms;

    reveal_strlit("pet.layer");
    reveal_strlit("pet.layer.top");
    reveal_strlit("pet.layer.normal");
    reveal_strlit("pet.layer.bottom");
    reveal_strlit("pet.open_settings");
    reveal_strlit("pet.open_hud");
    reveal_strlit("pet.hud_layout");
    reveal_strlit("pet.hud_layer");
    reveal_strlit("pet.hud_layer.top");
    reveal_strlit("pet.hud_layer.normal");
    reveal_strlit("pet.hud_layer.bottom");
    reveal_strlit("pet.exit_application");
    assert(PET_LAYER@.len() == 9);
    assert(PET_LAYER_TOP@.len() == 13);
    assert(PET_LAYER_NORMAL@.len() == 16);
    assert(PET_LAYER_BOTTOM@.len() == 16);
    assert(OPEN_SETTINGS@.len() == 17);
    assert(OPEN_HUD@.len() == 12);
    assert(HUD_LAYOUT@.len() == 14);
    assert(HUD_LAYER@.len() == 13);
    assert(HUD_LAYER_TOP@.len() == 17);
    assert(HUD_LAYER_NORMAL@.len() == 20);
    assert(HUD_LAYER_BOTTOM@.len() == 20);
    assert(EXIT_APPLICATION@.len() == 20);
    assert(PET_LAYER_TOP@[4] == 'l');
    assert(HUD_LAYER@[4] == 'h');
    assert(PET_LAYER_NORMAL@[10] == 'n');
    assert(PET_LAYER_BOTTOM@[10] == 'b');
    assert(OPEN_SETTINGS@[4] == 'o');
    assert(HUD_LAYER_TOP@[4] == 'h');
    assert(HUD_LAYER_NORMAL@[14] == 'n');
    assert(HUD_LAYER_BOTTOM@[14] == 'b');
    assert(EXIT_APPLICATION@[4] == 'e');
    assert(HUD_LAYER_NORMAL@[4] == 'h');
    assert(HUD_LAYER_BOTTOM@[4] == 'h');
}

proof fn lemma_parse_known_ids()
    ensures
        spec_parse_action(PET_LAYER@) is None,
        spec_parse_action(PET_LAYER_TOP@) == Some(PetMenuAction::SetPetLayer(WindowLayer::AlwaysOnTop)),
        spec_parse_action(PET_LAYER_NORMAL@) == Some(PetMenuAction::SetPetLayer(WindowLayer::Normal)),
        spec_parse_action(PET_LAYER_BOTTOM@) == Some(PetMenuAction::SetPetLayer(WindowLayer::AlwaysOnBottom)),
        spec_parse_action(OPEN_SETTINGS@) == Some(PetMenuAction::OpenSettings),
        spec_parse_action(OPEN_HUD@) == Some(PetMenuAction::OpenHud),
        spec_parse_action(HUD_LAYOUT@) == Some(PetMenuAction::HudLayout),
        spec_parse_action(HUD_LAYER@) is None,
        spec_parse_action(HUD_LAYER_TOP@) == Some(PetMenuAction::SetHudLayer(WindowLayer::AlwaysOnTop)),
        spec_parse_action(HUD_LAYER_NORMAL@) == Some(PetMenuAction::SetHudLayer(WindowLayer::Normal)),
        spec_parse_action(HUD_LAYER_BOTTOM@) == Some(PetMenuAction::SetHudLayer(WindowLayer::AlwaysOnBottom)),
        spec_parse_action(EXIT_APPLICATION@) == Some(PetMenuAction::ExitApplication),
{
    assert(spec_parse_action(PET_LAYER@) is None) by {
        lemma_menu_id_shapes();
    }
    assert(spec_parse_action(PET_LAYER_TOP@) == Some(PetMenuAction::SetPetLayer(WindowLayer::AlwaysOnTop))) by {
        lemma_menu_id_shapes();
    }
    assert(spec_parse_action(PET_LAYER_NORMAL@) == Some(PetMenuAction::SetPetLayer(WindowLayer::Normal))) by {
        lemma_menu_id_shapes();
    }
    assert(spec_parse_action(PET_LAYER_BOTTOM@) == Some(PetMenuAction::SetPetLayer(WindowLayer::AlwaysOnBottom))) by {
        lemma_menu_id_shapes();
    }
    assert(spec_parse_action(OPEN_SETTINGS@) == Some(PetMenuAction::OpenSettings)) by {
        lemma_menu_id_shapes();
    }
    assert(spec_parse_action(OPEN_HUD@) == Some(PetMenuAction::OpenHud)) by {
        lemma_menu_id_shapes();
    }
    assert(spec_parse_action(HUD_LAYOUT@) == Some(PetMenuAction::HudLayout)) by {
        lemma_menu_id_shapes();
    }
    assert(spec_parse_action(HUD_LAYER@) is None) by {
        lemma_menu_id_shapes();
    }
    assert(spec_parse_action(HUD_LAYER_TOP@) == Some(PetMenuAction::SetHudLayer(WindowLayer::AlwaysOnTop))) by {
        lemma_menu_id_shapes();
    }
    assert(spec_parse_action(HUD_LAYER_NORMAL@) == Some(PetMenuAction::SetHudLayer(WindowLayer::Normal))) by {
        lemma_menu_id_shapes();
    }
    assert(spec_parse_action(HUD_LAYER_BOTTOM@) == Some(PetMenuAction::SetHudLayer(WindowLayer::AlwaysOnBottom))) by {
        lemma_menu_id_shapes();
    }
    assert(spec_parse_action(EXIT_APPLICATION@) == Some(PetMenuAction::ExitApplication)) by {
        lemma_menu_id_shapes();
    }
}

/// Every entry of the pet menu resolves to the action it shows: settings,
/// the HUD switch, the layout editor and quit to their actions, each layer
/// entry to setting that layer on its window, and the two submenu headers to
/// no action.
pub proof fn law_menu_items_resolve_to_their_actions(
    menu: MenuDefinition,
    pet_layer: WindowLayer,
    hud_layer: WindowLayer,
    hud_enabled: bool,
)
    requires
        is_pet_menu(menu, pet_layer, hud_layer, hud_enabled),
    ensures
        spec_parse_action(menu.items[0].id@) == Some(PetMenuAction::OpenSettings),
        spec_parse_action(menu.items[1].id@) is None,
        spec_parse_action(menu.items[2].id@) == Some(PetMenuAction::OpenHud),
        spec_parse_action(menu.items[3].id@) is None,
        spec_parse_action(menu.items[4].id@) == Some(PetMenuAction::HudLayout),
        spec_parse_action(menu.items[5].id@) == Some(PetMenuAction::ExitApplication),
        ({
            let pet = menu.items[1].submenu->0;
            &&& spec_parse_action(pet.items[0].id@) == Some(PetMenuAction::SetPetLayer(WindowLayer::AlwaysOnTop))
            &&& spec_parse_action(pet.items[1].id@) == Some(PetMenuAction::SetPetLayer(WindowLayer::Normal))
            &&& spec_parse_action(pet.items[2].id@) == Some(PetMenuAction::SetPetLayer(WindowLayer::AlwaysOnBottom))
        }),
        ({
            let hud = menu.items[3].submenu->0;
            &&& spec_parse_action(hud.items[0].id@) == Some(PetMenuAction::SetHudLayer(WindowLayer::AlwaysOnTop))
            &&& spec_parse_action(hud.items[1].id@) == Some(PetMenuAction::SetHudLayer(WindowLayer::Normal))
            &&& spec_parse_action(hud.items[2].id@) == Some(PetMenuAction::SetHudLayer(WindowLayer::AlwaysOnBottom))
        }),
{
    lemma_parse_known_ids();
}

/// In each layer submenu exactly one entry is checked, and it is the one
/// whose action re-selects the window's current layer.
pub proof fn law_checked_layer_entry_is_current(
    menu: MenuDefinition,
    pet_layer: WindowLayer,
    hud_layer: WindowLayer,
    hud_enabled: bool,
)
    requires
        is_pet_menu(menu, pet_layer, hud_layer, hud_enabled),
    ensures
        forall|i: int|
            0 <= i < 3 ==> (#[trigger] menu.items[1].submenu->0.items[i]).checked
                == (spec_parse_action(menu.items[1].submenu->0.items[i].id@) == Some(
                PetMenuAction::SetPetLayer(pet_layer),
            )),
        forall|i: int|
            0 <= i < 3 ==> (#[trigger] menu.items[3].submenu->0.items[i]).checked
                == (spec_parse_action(menu.items[3].submenu->0.items[i].id@) == Some(
                PetMenuAction::SetHudLayer(hud_layer),
            )),
{
    law_menu_items_resolve_to_their_actions(menu, pet_layer, hud_layer, hud_enabled);
}

/// Entries of the layout canvas's context menu, top to bottom.
pub fn canvas_context_menu_keys() -> (keys: Vec<MessageKey>)
    ensures
        keys@ == seq![
            MessageKey::HudLayoutInformationTree,
            MessageKey::HudLayoutActiveTree,
            MessageKey::HudAdjustSnapGrid,
            MessageKey::HudAdjustLockRatio,
            MessageKey::HudGroupCreate,
            MessageKey::HudLayoutDone,
            MessageKey::HudLayoutCancel,
        ],
{
    vec![
        MessageKey::HudLayoutInformationTree,
        MessageKey::HudLayoutActiveTree,
        MessageKey::HudAdjustSnapGrid,
        MessageKey::HudAdjustLockRatio,
        MessageKey::HudGroupCreate,
        MessageKey::HudLayoutDone,
        MessageKey::HudLayoutCancel,
    ]
}

/// Entries of a group's context menu in the layout editor, top to bottom.
pub fn group_context_menu_keys() -> (keys: Vec<MessageKey>)
    ensures
        keys@ == seq![
            MessageKey::HudAdjustSnapGrid,
            MessageKey::HudAdjustLockRatio,
            MessageKey::HudAdjustResetPosition,
            MessageKey::HudAdjustResetSize,
            MessageKey::HudGroupDelete,
        ],
{
    vec![
        MessageKey::HudAdjustSnapGrid,
        MessageKey::HudAdjustLockRatio,
        MessageKey::HudAdjustResetPosition,
        MessageKey::HudAdjustResetSize,
        MessageKey::HudGroupDelete,
    ]
}

/// Entries of a HUD's context menu in the layout editor, top to bottom.
pub fn hud_context_menu_keys() -> (keys: Vec<MessageKey>)
    ensures
        keys@ == seq![
            MessageKey::HudAdjustSnapGrid,
            MessageKey::HudAdjustLockRatio,
            MessageKey::HudAdjustResetPosition,
            MessageKey::HudAdjustResetSize,
            MessageKey::HudLayoutCloseInformation,
        ],
{
    vec![
        MessageKey::HudAdjustSnapGrid,
        MessageKey::HudAdjustLockRatio,
        MessageKey::HudAdjustResetPosition,
        MessageKey::HudAdjustResetSize,
        MessageKey::HudLayoutCloseInformation,
    ]
}

/// The pet menu's session: whether its window tree is showing, where it
/// was opened, and whether its resources were released. The native menu
/// windows mirror this state.
pub struct PetMenu {
    visible: bool,
    anchor: [i32; 2],
    destroyed: bool,
}

impl PetMenu {
    /// Whether the menu tree is showing.
    pub closed spec fn showing(&self) -> bool {
        self.visible
    }

    /// Where the menu was last opened.
    pub closed spec fn opened_at(&self) -> [i32; 2] {
        self.anchor
    }

    /// Whether the menu's resources were released.
    pub closed spec fn released(&self) -> bool {
        self.destroyed
    }

    /// A hidden menu that was never opened.
    pub fn new() -> (menu: PetMenu)
        ensures
            !menu.showing(),
            !menu.released(),
            menu.opened_at() == [0i32, 0i32],
    {
        PetMenu { visible: false, anchor: [0, 0], destroyed: false }
    }

    /// Whether the menu tree is showing.
    pub fn is_visible(&self) -> (r: bool)
        ensures
            r == self.showing(),
    {
        self.visible
    }

    /// Opens the menu at `anchor` and returns the entries to show for the
    /// current window layers and HUD state.
    pub fn open(&mut self, anchor: [i32; 2], pet_layer: WindowLayer, hud_layer: WindowLayer, hud_open: bool) -> (menu:
        MenuDefinition)
        ensures
            final(self).showing(),
            final(self).opened_at() == anchor,
            final(self).released() == old(self).released(),
            is_pet_menu(menu, pet_layer, hud_layer, hud_open),
    {
        self.visible = true;
        self.anchor = anchor;
        definition(pet_layer, hud_layer, hud_open)
    }

    /// Closes the whole menu tree.
    pub fn close(&mut self)
        ensures
            !final(self).showing(),
            final(self).opened_at() == old(self).opened_at(),
            final(self).released() == old(self).released(),
    {
        self.visible = false;
    }

    /// Takes what the menu tree reported for one frame (the identifier of a
    /// clicked entry, and whether the tree asked to close) and returns the
    /// pet action of that entry together with the close request; a close
    /// request hides the menu.
    pub fn render(&mut self, selected_item: Option<&str>, should_close: bool) -> (r: (
        Option<PetMenuAction>,
        bool,
    ))
        ensures
            r.0 == (match selected_item {
                Some(id) => spec_parse_action(id@),
                None => None,
            }),
            r.1 == should_close,
            final(self).showing() == (old(self).showing() && !should_close),
            final(self).opened_at() == old(self).opened_at(),
            final(self).released() == old(self).released(),
    {
        let action = match selected_item {
            Some(id) => parse_action(id),
            None => None,
        };
        if should_close {
            self.visible = false;
        }
        (action, should_close)
    }

    /// Releases the menu tree; it is hidden afterwards.
    pub fn destroy(&mut self)
        ensures
            !final(self).showing(),
            final(self).released(),
            final(self).opened_at() == old(self).opened_at(),
    {
        self.visible = false;
        self.destroyed = true;
    }
}

} // verus!
