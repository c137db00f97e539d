//! The GearBlocks construction API as the assistant context describes it:
//! the documented interfaces, and the runtime snapshot records that carry
//! no measurements.
use vstd::prelude::*;

verus! {

pub const CONSTRUCTION_NAMESPACE_DOCS_URL: &'static str = "https://www.gearblocksgame.com/apidoc/namespace_smash_hammer_1_1_gear_blocks_1_1_construction.html";

/// A documented interface: its name, its page and its members.
#[derive(Clone, Debug)]
pub struct GearBlocksInterfaceDefinition {
    pub name: &'static str,
    pub docs_url: &'static str,
    pub members: &'static [&'static str],
}

fn interface_definition(name: &'static str, page: &'static str, members: &'static [&'static str]) -> (r:
    GearBlocksInterfaceDefinition)
    ensures
        r.name == name,
        r.docs_url == page,
        r.members == members,
{
    GearBlocksInterfaceDefinition { name, docs_url: page, members }
}

pub open spec fn definition_names(v: Seq<GearBlocksInterfaceDefinition>) -> Seq<Seq<char>> {
    v.map_values(|d: GearBlocksInterfaceDefinition| d.name@)
}

pub open spec fn definition_pages(v: Seq<GearBlocksInterfaceDefinition>) -> Seq<Seq<char>> {
    v.map_values(|d: GearBlocksInterfaceDefinition| d.docs_url@)
}

/// The interfaces of the construction namespace, in documentation order,
/// each with its page and members.
pub fn construction_interface_definitions() -> (r: Vec<GearBlocksInterfaceDefinition>)
    ensures
        definition_names(r@) == seq!["IAttachment"@, "IAttachmentOperations"@, "ICheckpoint"@, "IConstruction"@, "IConstructionOperations"@, "IControllablePartBehaviour"@, "IEnergyStore"@, "IEngineCrank"@, "IEngineCylinder"@, "IEngineDrivenCrank"@, "IEngineHead"@, "ILink"@, "ILinkNode"@, "IPart"@, "IPartAttachments"@, "IPartBehaviour"@, "IPartBehaviourOperations"@, "IPartPaint"@, "IPartProperties"@, "IPopulateConstructions"@, "IResizable"@, "ITweakables"@],
        definition_pages(r@) == seq![
        "interface_smash_hammer_1_1_gear_blocks_1_1_construction_1_1_i_attachment.html"@,
        "interface_smash_hammer_1_1_gear_blocks_1_1_construction_1_1_i_attachment_operations.html"@,
        "interface_smash_hammer_1_1_gear_blocks_1_1_construction_1_1_i_checkpoint.html"@,
        "interface_smash_hammer_1_1_gear_blocks_1_1_construction_1_1_i_construction.html"@,
        "interface_smash_hammer_1_1_gear_blocks_1_1_construction_1_1_i_construction_operations.html"@,
        "interface_smash_hammer_1_1_gear_blocks_1_1_construction_1_1_i_controllable_part_behaviour.html"@,
        "interface_smash_hammer_1_1_gear_blocks_1_1_construction_1_1_i_energy_store.html"@,
        "interface_smash_hammer_1_1_gear_blocks_1_1_construction_1_1_i_engine_crank.html"@,
        "interface_smash_hammer_1_1_gear_blocks_1_1_construction_1_1_i_engine_cylinder.html"@,
        "interface_smash_hammer_1_1_gear_blocks_1_1_construction_1_1_i_engine_driven_crank.html"@,
        "interface_smash_hammer_1_1_gear_blocks_1_1_construction_1_1_i_engine_head.html"@,
        "interface_smash_hammer_1_1_gear_blocks_1_1_construction_1_1_i_link.html"@,
        "interface_smash_hammer_1_1_gear_blocks_1_1_construction_1_1_i_link_node.html"@,
        "interface_smash_hammer_1_1_gear_blocks_1_1_construction_1_1_i_part.html"@,
        "interface_smash_hammer_1_1_gear_blocks_1_1_construction_1_1_i_part_attachments.html"@,
        "interface_smash_hammer_1_1_gear_blocks_1_1_construction_1_1_i_part_behaviour.html"@,
        "interface_smash_hammer_1_1_gear_blocks_1_1_construction_1_1_i_part_behaviour_operations.html"@,
        "interface_smash_hammer_1_1_gear_blocks_1_1_construction_1_1_i_part_paint.html"@,
        "interface_smash_hammer_1_1_gear_blocks_1_1_construction_1_1_i_part_properties.html"@,
        "interface_smash_hammer_1_1_gear_blocks_1_1_construction_1_1_i_populate_constructions.html"@,
        "interface_smash_hammer_1_1_gear_blocks_1_1_construction_1_1_i_resizable.html"@,
        "interface_smash_hammer_1_1_gear_blocks_1_1_construction_1_1_i_tweakables.html"@
        ],
{
    let mut defs: Vec<GearBlocksInterfaceDefinition> = Vec::new();
    defs.push(interface_definition("IAttachment", "interface_smash_hammer_1_1_gear_blocks_1_1_construction_1_1_i_attachment.html", &["CanCycleTypes", "ConnectedOrientation", "ConnectedPart", "ConnectedPartAttachmentOrientation", "ConnectedPartAttachmentPosition", "ConnectedPosition", "IsInterior", "IsJointAttachingCompositeToItself", "IsJointAttachment", "IsLocked", "IsTypeAllowed(AttachmentTypeFlags type)", "OwnerOrientation", "OwnerPart", "OwnerPartAttachmentOrientation", "OwnerPartAttachmentPosition", "OwnerPosition", "Type", "TypeName"]));
    defs.push(interface_definition("IAttachmentOperations", "interface_smash_hammer_1_1_gear_blocks_1_1_construction_1_1_i_attachment_operations.html", &["CreateAttachment(AttachmentTypeFlags type, IPart ownerPart, IPart connectedPart, Vector3Proxy searchPosition, Vector3Proxy searchNormal, bool snapPosition=false, bool invokeAsPlayer=false)", "CreateAttachment(AttachmentTypeFlags type, IPart ownerPart, IPart connectedPart, Vector3Proxy ownerSearchPosition, Vector3Proxy ownerSearchNormal, Vector3Proxy connectedSearchPosition, Vector3Proxy connectedSearchNormal, bool snapPosition=false, bool invokeAsPlayer=false)", "DeleteAllAttachments(IPart part, bool invokeAsPlayer=false)", "DeleteAllAttachments(IConstruction construction, bool invokeAsPlayer=false)", "DeleteAttachment(IAttachment attachment, bool invokeAsPlayer=false)", "ReplaceAttachment(IAttachment attachment, AttachmentTypeFlags newType, bool invokeAsPlayer=false)"]));
    defs.push(interface_definition("ICheckpoint", "interface_smash_hammer_1_1_gear_blocks_1_1_construction_1_1_i_checkpoint.html", &["ConstructionHandler(IConstruction construction)", "DebugInfo", "HasInside(IPart part)", "HasInside(IConstruction construction)", "Idx", "IsActivatable", "IsActivated", "IsControllable", "IsTweakable", "Name", "OnConstructionEntered", "OnConstructionExited", "OnPlayerEntered", "OnPlayerExited", "Part", "PlayerHandler(IPlayer player)"]));
    defs.push(interface_definition("IConstruction", "interface_smash_hammer_1_1_gear_blocks_1_1_construction_1_1_i_construction.html", &["ActiveStageIdx", "AddPartsToCatalogue(IDictionary< AssetGUID, ushort > partCatalogue)", "BuilderPlayerID", "CalcWorldBounds(bool activeStageOnly=false)", "CalcWorldCentreOfMass()", "CharacterPlayerID", "GetPart(ushort idx)", "ID", "IsAtomic", "IsBuildableBy(byte playerID)", "IsFrozen", "IsInvulnerable", "IsPlayerCharacter", "IsSelectableBy(byte playerID)", "Mass", "MaxStageIdx", "NumComposites", "NumParts", "Parts", "PreviewImage", "SetActiveStage(ushort stageIdx)"]));
    defs.push(interface_definition("IConstructionOperations", "interface_smash_hammer_1_1_gear_blocks_1_1_construction_1_1_i_construction_operations.html", &["AssignBuilderPlayerID(ushort constructionID, byte builderPlayerID)", "FreezeConstructionAndMove(ushort constructionID, Vector3Proxy translation, QuaternionProxy rotation, bool invokeAsPlayer=false)", "FreezeConstructionAtGround(ushort constructionID, Vector3Proxy position, bool invokeAsPlayer=false)", "FreezeConstructionAtPlayer(ushort constructionID, bool invokeAsPlayer=false, bool selectAfterFreeze=false)", "SetConstructionCollidable(ushort constructionID, bool isCollidable)", "SetConstructionDestroyable(ushort constructionID, bool isDestroyable)", "SetConstructionFrozen(ushort constructionID, bool freeze, bool invokeAsPlayer=false)", "SetConstructionSelectable(ushort constructionID, bool isSelectable)", "SetConstructionTargetable(ushort constructionID, bool isTargetable)", "SetConstructionVisible(ushort constructionID, bool isVisible)", "SetPartCollidable(ushort partID, bool isCollidable)", "SetPartDestroyable(ushort partID, bool isDestroyable)", "SetPartSelectable(ushort partID, bool isSelectable)", "SetPartsStage(ushort[] partIDs, SetStageMode setStageMode, ushort stageIdx=0)", "SetPartVisible(ushort partID, bool isVisible)"]));
    defs.push(interface_definition("IControllablePartBehaviour", "interface_smash_hammer_1_1_gear_blocks_1_1_construction_1_1_i_controllable_part_behaviour.html", &["ControlInfo", "DebugInfo", "Idx", "IsActivatable", "IsActivated", "IsControlBound", "IsControllable", "IsControlOverridden", "IsTweakable", "Name", "OnlyControlWhenPlayerLocked", "Part"]));
    defs.push(interface_definition("IEnergyStore", "interface_smash_hammer_1_1_gear_blocks_1_1_construction_1_1_i_energy_store.html", &["CapacityRemaining", "CapacityUsed", "Charge(float proportionOfCapacityUsed)", "DebugInfo", "Discharge(float proportionOfCapacityRemaining)", "Idx", "IsActivatable", "IsActivated", "IsControllable", "IsTweakable", "Name", "Part"]));
    defs.push(interface_definition("IEngineCrank", "interface_smash_hammer_1_1_gear_blocks_1_1_construction_1_1_i_engine_crank.html", &["DebugInfo", "DrivenCrank", "Idx", "IsActivatable", "IsActivated", "IsControllable", "IsTweakable", "LinkedCylinders", "Name", "NumLinkedCylinders", "Part"]));
    defs.push(interface_definition("IEngineCylinder", "interface_smash_hammer_1_1_gear_blocks_1_1_construction_1_1_i_engine_cylinder.html", &["Crank", "DebugInfo", "GetCrankAngle()", "Head", "Idx", "IsActivatable", "IsActivated", "IsControllable", "IsTweakable", "Name", "Part"]));
    defs.push(interface_definition("IEngineDrivenCrank", "interface_smash_hammer_1_1_gear_blocks_1_1_construction_1_1_i_engine_driven_crank.html", &["CrankShaft", "CurrentRotationSpeed", "DebugInfo", "DrivenCrank", "Idx", "IsActivatable", "IsActivated", "IsControllable", "IsTweakable", "LinkedCylinders", "Name", "NumLinkedCylinders", "Part"]));
    defs.push(interface_definition("IEngineHead", "interface_smash_hammer_1_1_gear_blocks_1_1_construction_1_1_i_engine_head.html", &["Crank", "Cylinder", "DebugInfo", "GetCrankAngle()", "Idx", "IsActivatable", "IsActivated", "IsControllable", "IsTweakable", "Name", "Part", "TimingAngle"]));
    defs.push(interface_definition("ILink", "interface_smash_hammer_1_1_gear_blocks_1_1_construction_1_1_i_link.html", &["LinkFromNode", "LinkToNode"]));
    defs.push(interface_definition("ILinkNode", "interface_smash_hammer_1_1_gear_blocks_1_1_construction_1_1_i_link_node.html", &["AssociatedLinks", "CanBeLinkedTo(ILinkNode otherLinkNode)", "HasLinks", "Idx", "IsLinkedTo(ILinkNode otherLinkNode)", "IsSameType(ILinkNode otherLinkNode)", "IsTypeHidden", "LinkFromAvailable", "LinkToAvailable", "LocalPosition", "OwnedLinks", "Part", "Position", "TypeName"]));
    defs.push(interface_definition("IPart", "interface_smash_hammer_1_1_gear_blocks_1_1_construction_1_1_i_part.html", &["AssetGUID", "AssetName", "Attachments", "Behaviours", "Bounds", "Category", "DisplayName", "FullDisplayName", "GetBehaviour(string name)", "ID", "Idx", "IsCollidable", "IsDeprecated", "IsDestroyable", "IsEnabled", "IsMaterialSwappable", "IsPaintable", "IsResizable", "IsSelectable", "IsVisible", "LinkNodes", "Mass", "Paint", "ParentConstruction", "Properties", "StageIdx", "Strength", "UnitVolume"]));
    defs.push(interface_definition("IPartAttachments", "interface_smash_hammer_1_1_gear_blocks_1_1_construction_1_1_i_part_attachments.html", &["Associated", "GetAttachedParts()", "GetAttachment(IPart otherPart)", "IsAttached(IPart otherPart)", "Owned"]));
    defs.push(interface_definition("IPartBehaviour", "interface_smash_hammer_1_1_gear_blocks_1_1_construction_1_1_i_part_behaviour.html", &["DebugInfo", "Idx", "IsActivatable", "IsActivated", "IsControllable", "IsTweakable", "Name", "Part"]));
    defs.push(interface_definition("IPartBehaviourOperations", "interface_smash_hammer_1_1_gear_blocks_1_1_construction_1_1_i_part_behaviour_operations.html", &["ToggleActivated(IPart part)"]));
    defs.push(interface_definition("IPartPaint", "interface_smash_hammer_1_1_gear_blocks_1_1_construction_1_1_i_part_paint.html", &["TargetColour"]));
    defs.push(interface_definition("IPartProperties", "interface_smash_hammer_1_1_gear_blocks_1_1_construction_1_1_i_part_properties.html", &["Density", "IsPaintable", "IsSwappable", "Mass", "MaterialName", "Strength"]));
    defs.push(interface_definition("IPopulateConstructions", "interface_smash_hammer_1_1_gear_blocks_1_1_construction_1_1_i_populate_constructions.html", &["DestroyConstruction(ushort constructionID, bool invokeAsPlayer=false)", "DestroyConstructions(ushort[] constructionIDs, bool invokeAsPlayer=false)", "DestroyPart(ushort partID, bool invokeAsPlayer=false)", "DuplicateConstruction(ushort constructionID, bool invokeAsPlayer=false)", "DuplicateConstruction(ushort constructionID, Vector3Proxy groundOrigin, bool invokeAsPlayer=false)", "DuplicatePart(ushort partID, bool invokeAsPlayer=false)", "DuplicatePart(ushort partID, Vector3Proxy spawnPosition, QuaternionProxy spawnOrientation, bool invokeAsPlayer=false)", "GetPlayerConstructionID(byte playerID)", "SpawnConstruction(string savedFolder, byte saveTypeID, bool invokeAsPlayer=false)", "SpawnConstruction(string savedFolder, byte saveTypeID, Vector3Proxy groundOrigin, bool invokeAsPlayer=false)", "SpawnPart(AssetGUID partAssetGUID, bool invokeAsPlayer=false)", "SpawnPart(AssetGUID partAssetGUID, Vector3Proxy spawnPosition, QuaternionProxy spawnOrientation, bool invokeAsPlayer=false)"]));
    defs.push(interface_definition("IResizable", "interface_smash_hammer_1_1_gear_blocks_1_1_construction_1_1_i_resizable.html", &["CurrentUnitSize", "ResizeUnitStep", "SetSize(Vector3Proxy unitSize, bool clamp=true)"]));
    defs.push(interface_definition("ITweakables", "interface_smash_hammer_1_1_gear_blocks_1_1_construction_1_1_i_tweakables.html", &["GetTweakable(string label)", "NumTweakables", "SyncTweakables()", "Tweakables"]));
    assert(definition_names(defs@) =~= seq!["IAttachment"@, "IAttachmentOperations"@, "ICheckpoint"@, "IConstruction"@, "IConstructionOperations"@, "IControllablePartBehaviour"@, "IEnergyStore"@, "IEngineCrank"@, "IEngineCylinder"@, "IEngineDrivenCrank"@, "IEngineHead"@, "ILink"@, "ILinkNode"@, "IPart"@, "IPartAttachments"@, "IPartBehaviour"@, "IPartBehaviourOperations"@, "IPartPaint"@, "IPartProperties"@, "IPopulateConstructions"@, "IResizable"@, "ITweakables"@]);
    assert(definition_pages(defs@) =~= seq![
        "interface_smash_hammer_1_1_gear_blocks_1_1_construction_1_1_i_attachment.html"@,
        "interface_smash_hammer_1_1_gear_blocks_1_1_construction_1_1_i_attachment_operations.html"@,
        "interface_smash_hammer_1_1_gear_blocks_1_1_construction_1_1_i_checkpoint.html"@,
        "interface_smash_hammer_1_1_gear_blocks_1_1_construction_1_1_i_construction.html"@,
        "interface_smash_hammer_1_1_gear_blocks_1_1_construction_1_1_i_construction_operations.html"@,
        "interface_smash_hammer_1_1_gear_blocks_1_1_construction_1_1_i_controllable_part_behaviour.html"@,
        "interface_smash_hammer_1_1_gear_blocks_1_1_construction_1_1_i_energy_store.html"@,
        "interface_smash_hammer_1_1_gear_blocks_1_1_construction_1_1_i_engine_crank.html"@,
        "interface_smash_hammer_1_1_gear_blocks_1_1_construction_1_1_i_engine_cylinder.html"@,
        "interface_smash_hammer_1_1_gear_blocks_1_1_construction_1_1_i_engine_driven_crank.html"@,
        "interface_smash_hammer_1_1_gear_blocks_1_1_construction_1_1_i_engine_head.html"@,
        "interface_smash_hammer_1_1_gear_blocks_1_1_construction_1_1_i_link.html"@,
        "interface_smash_hammer_1_1_gear_blocks_1_1_construction_1_1_i_link_node.html"@,
        "interface_smash_hammer_1_1_gear_blocks_1_1_construction_1_1_i_part.html"@,
        "interface_smash_hammer_1_1_gear_blocks_1_1_construction_1_1_i_part_attachments.html"@,
        "interface_smash_hammer_1_1_gear_blocks_1_1_construction_1_1_i_part_behaviour.html"@,
        "interface_smash_hammer_1_1_gear_blocks_1_1_construction_1_1_i_part_behaviour_operations.html"@,
        "interface_smash_hammer_1_1_gear_blocks_1_1_construction_1_1_i_part_paint.html"@,
        "interface_smash_hammer_1_1_gear_blocks_1_1_construction_1_1_i_part_properties.html"@,
        "interface_smash_hammer_1_1_gear_blocks_1_1_construction_1_1_i_populate_constructions.html"@,
        "interface_smash_hammer_1_1_gear_blocks_1_1_construction_1_1_i_resizable.html"@,
        "interface_smash_hammer_1_1_gear_blocks_1_1_construction_1_1_i_tweakables.html"@
    ]);
    defs
}

/// A part, construction or other runtime object as the game names it.
#[derive(Clone, Debug, Default)]
pub struct GearBlocksRuntimeRef {
    pub id: Option<i64>,
    pub index: Option<i64>,
    pub name: String,
    pub asset_guid: String,
    pub asset_name: String,
    pub api_type_name: String,
}

/// An operation the runtime offers: its name, signature and parameter
/// names, and whether it changes the scene.
#[derive(Clone, Debug, Default)]
pub struct GearBlocksOperationDescriptor {
    pub name: String,
    pub signature: String,
    pub parameter_names: Vec<String>,
    pub is_mutating: bool,
}

#[derive(Clone, Debug, Default)]
pub struct GearBlocksAttachmentOperationsSupport {
    pub create_attachment: Vec<GearBlocksOperationDescriptor>,
    pub delete_all_attachments: Vec<GearBlocksOperationDescriptor>,
    pub delete_attachment: Option<GearBlocksOperationDescriptor>,
    pub replace_attachment: Option<GearBlocksOperationDescriptor>,
}

#[derive(Clone, Debug, Default)]
pub struct GearBlocksPartBehaviourSnapshot {
    pub debug_info: String,
    pub idx: Option<i64>,
    pub is_activatable: Option<bool>,
    pub is_activated: Option<bool>,
    pub is_controllable: Option<bool>,
    pub is_tweakable: Option<bool>,
    pub name: String,
    pub part: Option<GearBlocksRuntimeRef>,
}

#[derive(Clone, Debug, Default)]
pub struct GearBlocksCheckpointSnapshot {
    pub behaviour: GearBlocksPartBehaviourSnapshot,
    pub construction_handler_available: bool,
    pub has_inside_part: Option<bool>,
    pub has_inside_construction: Option<bool>,
    pub on_construction_entered_available: bool,
    pub on_construction_exited_available: bool,
    pub on_player_entered_available: bool,
    pub on_player_exited_available: bool,
    pub player_handler_available: bool,
}

#[derive(Clone, Debug, Default)]
pub struct GearBlocksConstructionOperationsSupport {
    pub assign_builder_player_id: Option<GearBlocksOperationDescriptor>,
    pub freeze_construction_and_move: Option<GearBlocksOperationDescriptor>,
    pub freeze_construction_at_ground: Option<GearBlocksOperationDescriptor>,
    pub freeze_construction_at_player: Option<GearBlocksOperationDescriptor>,
    pub set_construction_collidable: Option<GearBlocksOperationDescriptor>,
    pub set_construction_destroyable: Option<GearBlocksOperationDescriptor>,
    pub set_construction_frozen: Option<GearBlocksOperationDescriptor>,
    pub set_construction_selectable: Option<GearBlocksOperationDescriptor>,
    pub set_construction_targetable: Option<GearBlocksOperationDescriptor>,
    pub set_construction_visible: Option<GearBlocksOperationDescriptor>,
    pub set_part_collidable: Option<GearBlocksOperationDescriptor>,
    pub set_part_destroyable: Option<GearBlocksOperationDescriptor>,
    pub set_part_selectable: Option<GearBlocksOperationDescriptor>,
    pub set_parts_stage: Option<GearBlocksOperationDescriptor>,
    pub set_part_visible: Option<GearBlocksOperationDescriptor>,
}

#[derive(Clone, Debug, Default)]
pub struct GearBlocksControllablePartBehaviourSnapshot {
    pub behaviour: GearBlocksPartBehaviourSnapshot,
    pub control_info: String,
    pub is_control_bound: Option<bool>,
    pub is_control_overridden: Option<bool>,
    pub only_control_when_player_locked: Option<bool>,
}

#[derive(Clone, Debug, Default)]
pub struct GearBlocksEngineCrankSnapshot {
    pub behaviour: GearBlocksPartBehaviourSnapshot,
    pub driven_crank: Option<GearBlocksRuntimeRef>,
    pub linked_cylinders: Vec<GearBlocksRuntimeRef>,
    pub num_linked_cylinders: Option<i64>,
}

#[derive(Clone, Debug, Default)]
pub struct GearBlocksLinkSnapshot {
    pub link_from_node: Option<GearBlocksRuntimeRef>,
    pub link_to_node: Option<GearBlocksRuntimeRef>,
}

#[derive(Clone, Debug, Default)]
pub struct GearBlocksPartBehaviourOperationsSupport {
    pub toggle_activated: Option<GearBlocksOperationDescriptor>,
}

#[derive(Clone, Debug, Default)]
pub struct GearBlocksPartPaintSnapshot {
    pub target_colour: String,
}

#[derive(Clone, Debug, Default)]
pub struct GearBlocksPopulateConstructionsSupport {
    pub destroy_construction: Option<GearBlocksOperationDescriptor>,
    pub destroy_constructions: Option<GearBlocksOperationDescriptor>,
    pub destroy_part: Option<GearBlocksOperationDescriptor>,
    pub duplicate_construction: Vec<GearBlocksOperationDescriptor>,
    pub duplicate_part: Vec<GearBlocksOperationDescriptor>,
    pub get_player_construction_id: Option<GearBlocksOperationDescriptor>,
    pub spawn_construction: Vec<GearBlocksOperationDescriptor>,
    pub spawn_part: Vec<GearBlocksOperationDescriptor>,
}

} // verus!
