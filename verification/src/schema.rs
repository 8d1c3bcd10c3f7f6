//! The canonical snapshot record: one normalised observation of the client,
//! its interface and the world at one instant.
//!
//! Every record has an empty value, its `Default`, and a predicate
//! `is_default` that says what the empty value holds. A snapshot is built
//! whole on every merge and never changed afterwards.

use crate::binary32::Binary32;
use std::collections::HashMap;
use vstd::prelude::*;

verus! {

/// A rectangle on the screen.
#[derive(Debug, Clone, Copy, PartialEq, Eq, Structural)]
pub struct Bounds {
    pub x: i32,
    pub y: i32,
    pub width: i32,
    pub height: i32,
}

impl Bounds {
    /// The empty rectangle at the origin.
    pub open spec fn is_default(&self) -> bool {
        self.x == 0 && self.y == 0 && self.width == 0 && self.height == 0
    }

    /// The rectangle has an area: both sides are positive.
    pub open spec fn has_area(&self) -> bool {
        self.width > 0 && self.height > 0
    }
}

impl Default for Bounds {
    fn default() -> (bounds: Bounds)
        ensures
            bounds.is_default(),
    {
        Bounds { x: 0, y: 0, width: 0, height: 0 }
    }
}

/// The client window.
#[derive(Debug, Clone)]
pub struct ClientInfo {
    pub window_title: String,
    pub bounds: Bounds,
    pub focused: bool,
    pub scale: Binary32,
    pub fps: u32,
    pub capture_latency_ms: u32,
}

impl ClientInfo {
    /// Every field is empty but the capture latency, which is as given.
    pub open spec fn is_default_with(&self, capture_latency_ms: u32) -> bool {
        &&& self.window_title@.len() == 0
        &&& self.bounds.is_default()
        &&& !self.focused
        &&& self.scale.bits == 0
        &&& self.fps == 0
        &&& self.capture_latency_ms == capture_latency_ms
    }

    /// Every field is empty.
    pub open spec fn is_default(&self) -> bool {
        self.is_default_with(0)
    }
}

impl Default for ClientInfo {
    fn default() -> (client: ClientInfo)
        ensures
            client.is_default(),
    {
        ClientInfo {
            window_title: String::new(),
            bounds: Bounds::default(),
            focused: false,
            scale: Binary32::zero(),
            fps: 0,
            capture_latency_ms: 0,
        }
    }
}

/// The regions of interest of the client window.
#[derive(Debug, Clone, Copy, PartialEq, Eq, Structural)]
pub struct RoiInfo {
    pub minimap: Bounds,
    pub inventory: Bounds,
    pub chatbox: Bounds,
    pub game_view: Bounds,
}

impl RoiInfo {
    /// Every region is empty.
    pub open spec fn is_default(&self) -> bool {
        &&& self.minimap.is_default()
        &&& self.inventory.is_default()
        &&& self.chatbox.is_default()
        &&& self.game_view.is_default()
    }
}

impl Default for RoiInfo {
    fn default() -> (roi: RoiInfo)
        ensures
            roi.is_default(),
    {
        RoiInfo {
            minimap: Bounds::default(),
            inventory: Bounds::default(),
            chatbox: Bounds::default(),
            game_view: Bounds::default(),
        }
    }
}

/// One element of the interface.
#[derive(Debug, Clone)]
pub struct UiElement {
    pub id: String,
    pub element_type: String,
    pub bounds: Bounds,
    pub visible: bool,
}

impl UiElement {
    /// Every field is empty.
    pub open spec fn is_default(&self) -> bool {
        &&& self.id@.len() == 0
        &&& self.element_type@.len() == 0
        &&& self.bounds.is_default()
        &&& !self.visible
    }
}

impl Default for UiElement {
    fn default() -> (element: UiElement)
        ensures
            element.is_default(),
    {
        UiElement {
            id: String::new(),
            element_type: String::new(),
            bounds: Bounds::default(),
            visible: false,
        }
    }
}

/// The state of the interface.
#[derive(Debug, Clone)]
pub struct UiInfo {
    pub open_interface: String,
    pub selected_tab: String,
    pub cursor_state: String,
    pub hover_text: String,
    pub elements: Vec<UiElement>,
    pub dialogue_options: Vec<String>,
}

impl UiInfo {
    /// Every field is empty.
    pub open spec fn is_default(&self) -> bool {
        &&& self.open_interface@.len() == 0
        &&& self.selected_tab@.len() == 0
        &&& self.cursor_state@.len() == 0
        &&& self.hover_text@.len() == 0
        &&& self.elements@.len() == 0
        &&& self.dialogue_options@.len() == 0
    }
}

impl Default for UiInfo {
    fn default() -> (ui: UiInfo)
        ensures
            ui.is_default(),
    {
        UiInfo {
            open_interface: String::new(),
            selected_tab: String::new(),
            cursor_state: String::new(),
            hover_text: String::new(),
            elements: Vec::new(),
            dialogue_options: Vec::new(),
        }
    }
}

/// One piece of recognised text.
#[derive(Debug, Clone)]
pub struct OcrEntry {
    pub region: String,
    pub text: String,
    pub confidence: Binary32,
}

impl OcrEntry {
    /// Every field is empty.
    pub open spec fn is_default(&self) -> bool {
        &&& self.region@.len() == 0
        &&& self.text@.len() == 0
        &&& self.confidence.bits == 0
    }
}

impl Default for OcrEntry {
    fn default() -> (entry: OcrEntry)
        ensures
            entry.is_default(),
    {
        OcrEntry { region: String::new(), text: String::new(), confidence: Binary32::zero() }
    }
}

/// The states of the visual cues.
#[derive(Debug, Clone)]
pub struct CuesInfo {
    pub animation_state: String,
    pub highlight_state: String,
    pub modal_state: String,
    pub hover_text: String,
    pub chat_prompt: String,
}

impl CuesInfo {
    /// Every field is empty but the highlight state, which is as given.
    pub open spec fn is_default_with(&self, highlight_state: Seq<char>) -> bool {
        &&& self.animation_state@.len() == 0
        &&& self.highlight_state@ == highlight_state
        &&& self.modal_state@.len() == 0
        &&& self.hover_text@.len() == 0
        &&& self.chat_prompt@.len() == 0
    }

    /// Every field is empty.
    pub open spec fn is_default(&self) -> bool {
        self.is_default_with(Seq::empty())
    }
}

impl Default for CuesInfo {
    fn default() -> (cues: CuesInfo)
        ensures
            cues.is_default(),
    {
        CuesInfo {
            animation_state: String::new(),
            highlight_state: String::new(),
            modal_state: String::new(),
            hover_text: String::new(),
            chat_prompt: String::new(),
        }
    }
}

/// A position in the world.
#[derive(Debug, Clone, Copy, PartialEq, Eq, Structural)]
pub struct WorldCoord {
    pub x: i32,
    pub y: i32,
    pub plane: i32,
}

impl WorldCoord {
    /// The origin on plane zero.
    pub open spec fn is_default(&self) -> bool {
        self.x == 0 && self.y == 0 && self.plane == 0
    }
}

impl Default for WorldCoord {
    fn default() -> (coord: WorldCoord)
        ensures
            coord.is_default(),
    {
        WorldCoord { x: 0, y: 0, plane: 0 }
    }
}

/// Where the player is.
#[derive(Debug, Clone)]
pub struct LocationInfo {
    pub region: String,
    pub subarea: String,
    pub coordinates: WorldCoord,
}

impl LocationInfo {
    /// Every field is empty.
    pub open spec fn is_default(&self) -> bool {
        &&& self.region@.len() == 0
        &&& self.subarea@.len() == 0
        &&& self.coordinates.is_default()
    }
}

impl Default for LocationInfo {
    fn default() -> (location: LocationInfo)
        ensures
            location.is_default(),
    {
        LocationInfo {
            region: String::new(),
            subarea: String::new(),
            coordinates: WorldCoord::default(),
        }
    }
}

/// What the player is doing.
#[derive(Debug, Clone)]
pub struct ActivityInfo {
    pub activity_type: String,
    pub state: String,
    pub progress: Binary32,
}

impl ActivityInfo {
    /// Every field is empty.
    pub open spec fn is_default(&self) -> bool {
        &&& self.activity_type@.len() == 0
        &&& self.state@.len() == 0
        &&& self.progress.bits == 0
    }
}

impl Default for ActivityInfo {
    fn default() -> (activity: ActivityInfo)
        ensures
            activity.is_default(),
    {
        ActivityInfo {
            activity_type: String::new(),
            state: String::new(),
            progress: Binary32::zero(),
        }
    }
}

/// The state of combat.
#[derive(Debug, Clone)]
pub struct CombatInfo {
    pub state: String,
}

impl CombatInfo {
    /// The state is empty.
    pub open spec fn is_default(&self) -> bool {
        self.state@.len() == 0
    }
}

impl Default for CombatInfo {
    fn default() -> (combat: CombatInfo)
        ensures
            combat.is_default(),
    {
        CombatInfo { state: String::new() }
    }
}

/// What is derived from the observation.
#[derive(Debug, Clone)]
pub struct DerivedInfo {
    pub location: LocationInfo,
    pub activity: ActivityInfo,
    pub combat: CombatInfo,
}

impl DerivedInfo {
    /// Every part is empty.
    pub open spec fn is_default(&self) -> bool {
        &&& self.location.is_default()
        &&& self.activity.is_default()
        &&& self.combat.is_default()
    }
}

impl Default for DerivedInfo {
    fn default() -> (derived: DerivedInfo)
        ensures
            derived.is_default(),
    {
        DerivedInfo {
            location: LocationInfo::default(),
            activity: ActivityInfo::default(),
            combat: CombatInfo::default(),
        }
    }
}

/// The level and experience of one skill.
#[derive(Debug, Clone, Copy, PartialEq, Eq, Structural)]
pub struct SkillInfo {
    pub level: u32,
    pub xp: u64,
}

impl SkillInfo {
    /// Level and experience are zero.
    pub open spec fn is_default(&self) -> bool {
        self.level == 0 && self.xp == 0
    }
}

impl Default for SkillInfo {
    fn default() -> (skill: SkillInfo)
        ensures
            skill.is_default(),
    {
        SkillInfo { level: 0, xp: 0 }
    }
}

/// One slot of the inventory.
#[derive(Debug, Clone)]
pub struct InventoryItem {
    pub slot: u32,
    pub item_id: i32,
    pub name: String,
    pub quantity: i32,
}

impl InventoryItem {
    /// Every field is empty.
    pub open spec fn is_default(&self) -> bool {
        &&& self.slot == 0
        &&& self.item_id == 0
        &&& self.name@.len() == 0
        &&& self.quantity == 0
    }
}

impl Default for InventoryItem {
    fn default() -> (item: InventoryItem)
        ensures
            item.is_default(),
    {
        InventoryItem { slot: 0, item_id: 0, name: String::new(), quantity: 0 }
    }
}

/// What the account owns.
#[derive(Debug, Clone, Copy, PartialEq, Eq, Structural)]
pub struct ResourceInfo {
    pub gp: i64,
}

impl ResourceInfo {
    /// No coins.
    pub open spec fn is_default(&self) -> bool {
        self.gp == 0
    }
}

impl Default for ResourceInfo {
    fn default() -> (resources: ResourceInfo)
        ensures
            resources.is_default(),
    {
        ResourceInfo { gp: 0 }
    }
}

/// The state of the account.
#[derive(Debug, Clone)]
pub struct AccountInfo {
    pub name: String,
    pub membership_status: String,
    pub skills: HashMap<String, SkillInfo>,
    pub inventory: Vec<InventoryItem>,
    pub equipment: HashMap<String, String>,
    pub resources: ResourceInfo,
}

impl AccountInfo {
    /// Every field is empty.
    pub open spec fn is_default(&self) -> bool {
        &&& self.name@.len() == 0
        &&& self.membership_status@.len() == 0
        &&& self.skills@ == Map::<String, SkillInfo>::empty()
        &&& self.inventory@.len() == 0
        &&& self.equipment@ == Map::<String, String>::empty()
        &&& self.resources.is_default()
    }
}

impl Default for AccountInfo {
    fn default() -> (account: AccountInfo)
        ensures
            account.is_default(),
    {
        AccountInfo {
            name: String::new(),
            membership_status: String::new(),
            skills: HashMap::new(),
            inventory: Vec::new(),
            equipment: HashMap::new(),
            resources: ResourceInfo::default(),
        }
    }
}

/// One NPC on the screen, as a value of characters and integers.
pub struct NpcModel {
    pub name: Seq<char>,
    pub id: i32,
    pub x: i32,
    pub y: i32,
}

/// One NPC on the screen.
#[derive(Debug)]
pub struct NpcInfo {
    pub name: String,
    pub id: i32,
    pub x: i32,
    pub y: i32,
}

impl View for NpcInfo {
    type V = NpcModel;

    open spec fn view(&self) -> NpcModel {
        NpcModel { name: self.name@, id: self.id, x: self.x, y: self.y }
    }
}

impl NpcInfo {
    /// Every field is empty.
    pub open spec fn is_default(&self) -> bool {
        self.name@.len() == 0 && self.id == 0 && self.x == 0 && self.y == 0
    }
}

impl Default for NpcInfo {
    fn default() -> (npc: NpcInfo)
        ensures
            npc.is_default(),
    {
        NpcInfo { name: String::new(), id: 0, x: 0, y: 0 }
    }
}

impl Clone for NpcInfo {
    fn clone(&self) -> (copy: NpcInfo)
        ensures
            copy@ == self@,
    {
        NpcInfo { name: self.name.clone(), id: self.id, x: self.x, y: self.y }
    }
}

/// The telemetry of the game client, as a value of characters, integers and
/// sequences.
pub struct TelemetryModel {
    pub fresh: bool,
    pub tutorial_progress: i32,
    pub inventory_count: i32,
    pub camera_direction: Seq<char>,
    pub npcs_on_screen: Seq<NpcModel>,
    pub player_screen: Option<(i32, i32)>,
    pub player_world: Option<(i32, i32, i32)>,
}

/// The telemetry that the game client supplies.
#[derive(Debug)]
pub struct RuneliteData {
    pub fresh: bool,
    pub tutorial_progress: i32,
    pub inventory_count: i32,
    pub camera_direction: String,
    pub npcs_on_screen: Vec<NpcInfo>,
    pub player_screen: Option<(i32, i32)>,
    pub player_world: Option<(i32, i32, i32)>,
}

/// The values of a sequence of NPCs.
pub open spec fn npc_models(npcs: Seq<NpcInfo>) -> Seq<NpcModel> {
    npcs.map_values(|npc: NpcInfo| npc@)
}

impl View for RuneliteData {
    type V = TelemetryModel;

    open spec fn view(&self) -> TelemetryModel {
        TelemetryModel {
            fresh: self.fresh,
            tutorial_progress: self.tutorial_progress,
            inventory_count: self.inventory_count,
            camera_direction: self.camera_direction@,
            npcs_on_screen: npc_models(self.npcs_on_screen@),
            player_screen: self.player_screen,
            player_world: self.player_world,
        }
    }
}

impl RuneliteData {
    /// Every field is empty.
    pub open spec fn is_default(&self) -> bool {
        &&& !self.fresh
        &&& self.tutorial_progress == 0
        &&& self.inventory_count == 0
        &&& self.camera_direction@.len() == 0
        &&& self.npcs_on_screen@.len() == 0
        &&& self.player_screen is None
        &&& self.player_world is None
    }
}

impl Default for RuneliteData {
    fn default() -> (telemetry: RuneliteData)
        ensures
            telemetry.is_default(),
    {
        RuneliteData {
            fresh: false,
            tutorial_progress: 0,
            inventory_count: 0,
            camera_direction: String::new(),
            npcs_on_screen: Vec::new(),
            player_screen: None,
            player_world: None,
        }
    }
}

impl Clone for RuneliteData {
    fn clone(&self) -> (copy: RuneliteData)
        ensures
            copy@ == self@,
    {
        let npcs = self.npcs_on_screen.clone();
        assert(npc_models(npcs@) =~= npc_models(self.npcs_on_screen@));
        RuneliteData {
            fresh: self.fresh,
            tutorial_progress: self.tutorial_progress,
            inventory_count: self.inventory_count,
            camera_direction: self.camera_direction.clone(),
            npcs_on_screen: npcs,
            player_screen: self.player_screen,
            player_world: self.player_world,
        }
    }
}

/// One normalised observation.
#[derive(Debug, Clone)]
pub struct SnapshotSchema {
    pub capture_id: String,
    pub timestamp: String,
    pub version: u32,
    pub stale: bool,
    pub session_id: String,
    pub client: ClientInfo,
    pub roi: RoiInfo,
    pub ui: UiInfo,
    pub ocr: Vec<OcrEntry>,
    pub cues: CuesInfo,
    pub derived: DerivedInfo,
    pub account: AccountInfo,
    pub runelite_data: RuneliteData,
}

impl SnapshotSchema {
    /// Every field is empty.
    pub open spec fn is_default(&self) -> bool {
        &&& self.capture_id@.len() == 0
        &&& self.timestamp@.len() == 0
        &&& self.version == 0
        &&& !self.stale
        &&& self.session_id@.len() == 0
        &&& self.client.is_default()
        &&& self.roi.is_default()
        &&& self.ui.is_default()
        &&& self.ocr@.len() == 0
        &&& self.cues.is_default()
        &&& self.derived.is_default()
        &&& self.account.is_default()
        &&& self.runelite_data.is_default()
    }
}

impl Default for SnapshotSchema {
    fn default() -> (snapshot: SnapshotSchema)
        ensures
            snapshot.is_default(),
    {
        SnapshotSchema {
            capture_id: String::new(),
            timestamp: String::new(),
            version: 0,
            stale: false,
            session_id: String::new(),
            client: ClientInfo::default(),
            roi: RoiInfo::default(),
            ui: UiInfo::default(),
            ocr: Vec::new(),
            cues: CuesInfo::default(),
            derived: DerivedInfo::default(),
            account: AccountInfo::default(),
            runelite_data: RuneliteData::default(),
        }
    }
}

} // verus!
