//! The messages that the planet takes and the replies that it gives, as closed
//! sum types: one per direction and partner.
//!
//! A message holds what the handlers read and what they must hand on. What
//! only the transport needs, such as the channel to a newly arrived explorer,
//! is not part of it.

use vstd::prelude::*;
use common_game::components::resource::{
    BasicResource, ComplexResource, ComplexResourceRequest, GenericResource,
};
use common_game::components::sunray::Sunray;

verus! {

/// The kinds of resource that are made from a charged cell alone.
#[derive(Clone, Copy, Debug, PartialEq, Eq, Structural)]
pub enum BasicResourceType {
    Oxygen,
    Hydrogen,
    Carbon,
    Silicon,
}

/// The kinds of resource that are made from two resources and a charged cell.
#[derive(Clone, Copy, Debug, PartialEq, Eq, Structural)]
pub enum ComplexResourceType {
    Diamond,
    Water,
    Life,
    Robot,
    Dolphin,
    AIPartner,
}

/// An overview of the planet: which cells are charged, how many of them, and
/// whether a rocket stands ready.
#[derive(Debug)]
pub struct DummyPlanetState {
    pub energy_cells: Vec<bool>,
    pub charged_cells_count: usize,
    pub has_rocket: bool,
}

/// What the orchestrator sends to the planet.
#[derive(Debug)]
pub enum OrchestratorToPlanet {
    Sunray(Sunray),
    Asteroid,
    StartPlanetAI,
    StopPlanetAI,
    KillPlanet,
    InternalStateRequest,
    IncomingExplorerRequest { explorer_id: u32 },
    OutgoingExplorerRequest { explorer_id: u32 },
}

/// What the planet answers to the orchestrator.
#[derive(Debug)]
pub enum PlanetToOrchestrator {
    /// The sunray was received. `charged_cell` is the cell that took its
    /// energy; `None` says that no cell was free and the energy is lost.
    SunrayAck { planet_id: u32, charged_cell: Option<u32> },
    InternalStateResponse { planet_id: u32, planet_state: DummyPlanetState },
}

/// What an explorer sends to the planet.
#[derive(Debug)]
pub enum ExplorerToPlanet {
    SupportedResourceRequest { explorer_id: u32 },
    SupportedCombinationRequest { explorer_id: u32 },
    GenerateResourceRequest { explorer_id: u32, resource: BasicResourceType },
    CombineResourceRequest { explorer_id: u32, msg: ComplexResourceRequest },
    AvailableEnergyCellRequest { explorer_id: u32 },
}

/// What the planet answers to an explorer.
#[derive(Debug)]
pub enum PlanetToExplorer {
    SupportedResourceResponse { resource_list: Vec<BasicResourceType> },
    SupportedCombinationResponse { combination_list: Vec<ComplexResourceType> },
    GenerateResourceResponse { resource: Option<BasicResource> },
    CombineResourceResponse {
        complex_response: Result<ComplexResource, (String, GenericResource, GenericResource)>,
    },
    AvailableEnergyCellResponse { available_cells: u32 },
}

/// A short name for a value, for use in diagnostics.
pub trait ToString2 {
    /// The name, as text.
    spec fn name(&self) -> Seq<char>;

    /// The name, as a string.
    fn to_string_2(&self) -> (text: String)
        ensures
            text@ == self.name(),
    ;
}

impl ToString2 for BasicResourceType {
    open spec fn name(&self) -> Seq<char> {
        match self {
            BasicResourceType::Carbon => "carbon"@,
            BasicResourceType::Hydrogen => "hydrogen"@,
            BasicResourceType::Oxygen => "oxygen"@,
            BasicResourceType::Silicon => "silicon"@,
        }
    }

    fn to_string_2(&self) -> (text: String) {
        match self {
            BasicResourceType::Carbon => "carbon".to_owned(),
            BasicResourceType::Hydrogen => "hydrogen".to_owned(),
            BasicResourceType::Oxygen => "oxygen".to_owned(),
            BasicResourceType::Silicon => "silicon".to_owned(),
        }
    }
}

impl ToString2 for ComplexResourceType {
    open spec fn name(&self) -> Seq<char> {
        match self {
            ComplexResourceType::AIPartner => "AIPartner"@,
            ComplexResourceType::Diamond => "Diamond"@,
            ComplexResourceType::Life => "Life"@,
            ComplexResourceType::Robot => "Robot"@,
            ComplexResourceType::Water => "Water"@,
            ComplexResourceType::Dolphin => "Dolphin"@,
        }
    }

    fn to_string_2(&self) -> (text: String) {
        match self {
            ComplexResourceType::AIPartner => "AIPartner".to_owned(),
            ComplexResourceType::Diamond => "Diamond".to_owned(),
            ComplexResourceType::Life => "Life".to_owned(),
            ComplexResourceType::Robot => "Robot".to_owned(),
            ComplexResourceType::Water => "Water".to_owned(),
            ComplexResourceType::Dolphin => "Dolphin".to_owned(),
        }
    }
}

impl ToString2 for OrchestratorToPlanet {
    open spec fn name(&self) -> Seq<char> {
        match self {
            OrchestratorToPlanet::InternalStateRequest => "InternalStateRequest"@,
            OrchestratorToPlanet::Sunray(_) => "Sunray"@,
            OrchestratorToPlanet::Asteroid => "Asteroid"@,
            OrchestratorToPlanet::StartPlanetAI => "StartPlanetAI"@,
            OrchestratorToPlanet::StopPlanetAI => "StopPlanetAI"@,
            OrchestratorToPlanet::KillPlanet => "KillPlanet"@,
            OrchestratorToPlanet::IncomingExplorerRequest { .. } => "IncomingExplorerRequest"@,
            OrchestratorToPlanet::OutgoingExplorerRequest { .. } => "OutgoingExplorerRequest"@,
        }
    }

    fn to_string_2(&self) -> (text: String) {
        match self {
            OrchestratorToPlanet::InternalStateRequest => "InternalStateRequest".to_owned(),
            OrchestratorToPlanet::Sunray(_) => "Sunray".to_owned(),
            OrchestratorToPlanet::Asteroid => "Asteroid".to_owned(),
            OrchestratorToPlanet::StartPlanetAI => "StartPlanetAI".to_owned(),
            OrchestratorToPlanet::StopPlanetAI => "StopPlanetAI".to_owned(),
            OrchestratorToPlanet::KillPlanet => "KillPlanet".to_owned(),
            OrchestratorToPlanet::IncomingExplorerRequest { .. } => {
                "IncomingExplorerRequest".to_owned()
            },
            OrchestratorToPlanet::OutgoingExplorerRequest { .. } => {
                "OutgoingExplorerRequest".to_owned()
            },
        }
    }
}

impl ToString2 for ExplorerToPlanet {
    open spec fn name(&self) -> Seq<char> {
        match self {
            ExplorerToPlanet::SupportedResourceRequest { .. } => "SupportedResourceRequest"@,
            ExplorerToPlanet::SupportedCombinationRequest { .. } => "SupportedCombinationRequest"@,
            ExplorerToPlanet::GenerateResourceRequest { .. } => "GenerateResourceRequest"@,
            ExplorerToPlanet::CombineResourceRequest { .. } => "CombineResourceRequest"@,
            ExplorerToPlanet::AvailableEnergyCellRequest { .. } => "AvailableEnergyCellRequest"@,
        }
    }

    fn to_string_2(&self) -> (text: String) {
        match self {
            ExplorerToPlanet::SupportedResourceRequest { .. } => {
                "SupportedResourceRequest".to_owned()
            },
            ExplorerToPlanet::SupportedCombinationRequest { .. } => {
                "SupportedCombinationRequest".to_owned()
            },
            ExplorerToPlanet::GenerateResourceRequest { .. } => {
                "GenerateResourceRequest".to_owned()
            },
            ExplorerToPlanet::CombineResourceRequest { .. } => "CombineResourceRequest".to_owned(),
            ExplorerToPlanet::AvailableEnergyCellRequest { .. } => {
                "AvailableEnergyCellRequest".to_owned()
            },
        }
    }
}

} // verus!
