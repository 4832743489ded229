//! Governance records of the platform: intents and their goals, plans,
//! approvals, trust profiles, capabilities, roles, settlements, escrows,
//! evidence, disclosures and policy decisions.
use vstd::prelude::*;
use vstd::string::StringSliceAdditionalSpecFns;

verus! {

/// Intent goal type categories. Each has a fixed wire-format string,
/// given by `as_str`, by which intents are dispatched.
#[derive(Clone, Debug, PartialEq, Eq, Structural)]
pub enum IntentGoalType {
    Convert,
    EarnYield,
    Borrow,
    ProvideLiquidity,
    Swap,
    Stake,
    Bridge,
    Compound,
    Custom,
    ObjectCreate,
    ObjectMutate,
    PolicyBind,
    CapabilityGrant,
    WorkflowStart,
    CredentialIssue,
    VaultCreate,
    Settlement,
    SettlementNetting,
    ObjectTransition,
    PolicyChange,
    ContractUpgrade,
    PatchPropagation,
    RevertTransaction,
    RoleAssign,
    RoleRevoke,
    RoleSuspend,
    RoleEmergency,
    RoleNormalize,
    DisclosureGrant,
    DisclosureRevoke,
    ContractDeploy,
    ContractCall,
    SwarmCreate,
    SwarmJoin,
    SwarmCoordinate,
    SwarmDissolve,
    ShapeTransition,
    BridgeSend,
    BridgeReceive,
    CapabilityRevoke,
    PolicyUnbind,
    AnchorForce,
    TrustProfileCreate,
    TrustProfileUpdate,
    BootstrapRole,
    SystemAnchorPeriodic,
    ApprovalInvalidate,
    RoleExpire,
    CapabilityExpire,
    SponsorRegister,
    SponsorUpdate,
    SponsorRevoke,
    SponsorPause,
    SponsorResume,
    DisputeResolve,
    RulePackEval,
    VerifierRun,
    ExternalAdapterCall,
    AgentRun,
    ConfidentialExec,
    SubsystemAction,
    /// Plugin upgrade lifecycle.
    PluginUpgrade,
    PluginRegister,
}


/// The wire-format string of a goal type.
pub open spec fn goal_wire_name(g: IntentGoalType) -> Seq<char> {
    match g {
        IntentGoalType::Convert => "CONVERT"@,
        IntentGoalType::EarnYield => "EARN_YIELD"@,
        IntentGoalType::Borrow => "BORROW"@,
        IntentGoalType::ProvideLiquidity => "PROVIDE_LIQUIDITY"@,
        IntentGoalType::Swap => "SWAP"@,
        IntentGoalType::Stake => "STAKE"@,
        IntentGoalType::Bridge => "BRIDGE"@,
        IntentGoalType::Compound => "COMPOUND"@,
        IntentGoalType::Custom => "CUSTOM"@,
        IntentGoalType::ObjectCreate => "OBJECT_CREATE"@,
        IntentGoalType::ObjectMutate => "OBJECT_MUTATE"@,
        IntentGoalType::PolicyBind => "POLICY_BIND"@,
        IntentGoalType::CapabilityGrant => "CAPABILITY_GRANT"@,
        IntentGoalType::WorkflowStart => "WORKFLOW_START"@,
        IntentGoalType::CredentialIssue => "CREDENTIAL_ISSUE"@,
        IntentGoalType::VaultCreate => "VAULT_CREATE"@,
        IntentGoalType::Settlement => "SETTLEMENT"@,
        IntentGoalType::SettlementNetting => "SETTLEMENT_NETTING"@,
        IntentGoalType::ObjectTransition => "OBJECT_TRANSITION"@,
        IntentGoalType::PolicyChange => "POLICY_CHANGE"@,
        IntentGoalType::ContractUpgrade => "CONTRACT_UPGRADE"@,
        IntentGoalType::PatchPropagation => "PATCH_PROPAGATION"@,
        IntentGoalType::RevertTransaction => "REVERT_TRANSACTION"@,
        IntentGoalType::RoleAssign => "ROLE_ASSIGN"@,
        IntentGoalType::RoleRevoke => "ROLE_REVOKE"@,
        IntentGoalType::RoleSuspend => "ROLE_SUSPEND"@,
        IntentGoalType::RoleEmergency => "ROLE_EMERGENCY"@,
        IntentGoalType::RoleNormalize => "ROLE_NORMALIZE"@,
        IntentGoalType::DisclosureGrant => "DISCLOSURE_GRANT"@,
        IntentGoalType::DisclosureRevoke => "DISCLOSURE_REVOKE"@,
        IntentGoalType::ContractDeploy => "CONTRACT_DEPLOY"@,
        IntentGoalType::ContractCall => "CONTRACT_CALL"@,
        IntentGoalType::SwarmCreate => "SWARM_CREATE"@,
        IntentGoalType::SwarmJoin => "SWARM_JOIN"@,
        IntentGoalType::SwarmCoordinate => "SWARM_COORDINATE"@,
        IntentGoalType::SwarmDissolve => "SWARM_DISSOLVE"@,
        IntentGoalType::ShapeTransition => "SHAPE_TRANSITION"@,
        IntentGoalType::BridgeSend => "BRIDGE_SEND"@,
        IntentGoalType::BridgeReceive => "BRIDGE_RECEIVE"@,
        IntentGoalType::CapabilityRevoke => "CAPABILITY_REVOKE"@,
        IntentGoalType::PolicyUnbind => "POLICY_UNBIND"@,
        IntentGoalType::AnchorForce => "ANCHOR_FORCE"@,
        IntentGoalType::TrustProfileCreate => "TRUST_PROFILE_CREATE"@,
        IntentGoalType::TrustProfileUpdate => "TRUST_PROFILE_UPDATE"@,
        IntentGoalType::BootstrapRole => "BOOTSTRAP_ROLE"@,
        IntentGoalType::SystemAnchorPeriodic => "SYSTEM_ANCHOR_PERIODIC"@,
        IntentGoalType::ApprovalInvalidate => "APPROVAL_INVALIDATE"@,
        IntentGoalType::RoleExpire => "ROLE_EXPIRE"@,
        IntentGoalType::CapabilityExpire => "CAPABILITY_EXPIRE"@,
        IntentGoalType::SponsorRegister => "SPONSOR_REGISTER"@,
        IntentGoalType::SponsorUpdate => "SPONSOR_UPDATE"@,
        IntentGoalType::SponsorRevoke => "SPONSOR_REVOKE"@,
        IntentGoalType::SponsorPause => "SPONSOR_PAUSE"@,
        IntentGoalType::SponsorResume => "SPONSOR_RESUME"@,
        IntentGoalType::DisputeResolve => "DISPUTE_RESOLVE"@,
        IntentGoalType::RulePackEval => "RULE_PACK_EVAL"@,
        IntentGoalType::VerifierRun => "VERIFIER_RUN"@,
        IntentGoalType::ExternalAdapterCall => "EXTERNAL_ADAPTER_CALL"@,
        IntentGoalType::AgentRun => "AGENT_RUN"@,
        IntentGoalType::ConfidentialExec => "CONFIDENTIAL_EXEC"@,
        IntentGoalType::SubsystemAction => "SUBSYSTEM_ACTION"@,
        IntentGoalType::PluginUpgrade => "PLUGIN_UPGRADE"@,
        IntentGoalType::PluginRegister => "PLUGIN_REGISTER"@,
    }
}

/// The wire names of the goal types: each variant's name in upper case
/// with words joined by underscores.
pub proof fn lemma_goal_wire_name_table()
    ensures
        goal_wire_name(IntentGoalType::Convert) == "CONVERT"@,
        goal_wire_name(IntentGoalType::EarnYield) == "EARN_YIELD"@,
        goal_wire_name(IntentGoalType::Borrow) == "BORROW"@,
        goal_wire_name(IntentGoalType::ProvideLiquidity) == "PROVIDE_LIQUIDITY"@,
        goal_wire_name(IntentGoalType::Swap) == "SWAP"@,
        goal_wire_name(IntentGoalType::Stake) == "STAKE"@,
        goal_wire_name(IntentGoalType::Bridge) == "BRIDGE"@,
        goal_wire_name(IntentGoalType::Compound) == "COMPOUND"@,
        goal_wire_name(IntentGoalType::Custom) == "CUSTOM"@,
        goal_wire_name(IntentGoalType::ObjectCreate) == "OBJECT_CREATE"@,
        goal_wire_name(IntentGoalType::ObjectMutate) == "OBJECT_MUTATE"@,
        goal_wire_name(IntentGoalType::PolicyBind) == "POLICY_BIND"@,
        goal_wire_name(IntentGoalType::CapabilityGrant) == "CAPABILITY_GRANT"@,
        goal_wire_name(IntentGoalType::WorkflowStart) == "WORKFLOW_START"@,
        goal_wire_name(IntentGoalType::CredentialIssue) == "CREDENTIAL_ISSUE"@,
        goal_wire_name(IntentGoalType::VaultCreate) == "VAULT_CREATE"@,
        goal_wire_name(IntentGoalType::Settlement) == "SETTLEMENT"@,
        goal_wire_name(IntentGoalType::SettlementNetting) == "SETTLEMENT_NETTING"@,
        goal_wire_name(IntentGoalType::ObjectTransition) == "OBJECT_TRANSITION"@,
        goal_wire_name(IntentGoalType::PolicyChange) == "POLICY_CHANGE"@,
        goal_wire_name(IntentGoalType::ContractUpgrade) == "CONTRACT_UPGRADE"@,
        goal_wire_name(IntentGoalType::PatchPropagation) == "PATCH_PROPAGATION"@,
        goal_wire_name(IntentGoalType::RevertTransaction) == "REVERT_TRANSACTION"@,
        goal_wire_name(IntentGoalType::RoleAssign) == "ROLE_ASSIGN"@,
        goal_wire_name(IntentGoalType::RoleRevoke) == "ROLE_REVOKE"@,
        goal_wire_name(IntentGoalType::RoleSuspend) == "ROLE_SUSPEND"@,
        goal_wire_name(IntentGoalType::RoleEmergency) == "ROLE_EMERGENCY"@,
        goal_wire_name(IntentGoalType::RoleNormalize) == "ROLE_NORMALIZE"@,
        goal_wire_name(IntentGoalType::DisclosureGrant) == "DISCLOSURE_GRANT"@,
        goal_wire_name(IntentGoalType::DisclosureRevoke) == "DISCLOSURE_REVOKE"@,
        goal_wire_name(IntentGoalType::ContractDeploy) == "CONTRACT_DEPLOY"@,
        goal_wire_name(IntentGoalType::ContractCall) == "CONTRACT_CALL"@,
        goal_wire_name(IntentGoalType::SwarmCreate) == "SWARM_CREATE"@,
        goal_wire_name(IntentGoalType::SwarmJoin) == "SWARM_JOIN"@,
        goal_wire_name(IntentGoalType::SwarmCoordinate) == "SWARM_COORDINATE"@,
        goal_wire_name(IntentGoalType::SwarmDissolve) == "SWARM_DISSOLVE"@,
        goal_wire_name(IntentGoalType::ShapeTransition) == "SHAPE_TRANSITION"@,
        goal_wire_name(IntentGoalType::BridgeSend) == "BRIDGE_SEND"@,
        goal_wire_name(IntentGoalType::BridgeReceive) == "BRIDGE_RECEIVE"@,
        goal_wire_name(IntentGoalType::CapabilityRevoke) == "CAPABILITY_REVOKE"@,
        goal_wire_name(IntentGoalType::PolicyUnbind) == "POLICY_UNBIND"@,
        goal_wire_name(IntentGoalType::AnchorForce) == "ANCHOR_FORCE"@,
        goal_wire_name(IntentGoalType::TrustProfileCreate) == "TRUST_PROFILE_CREATE"@,
        goal_wire_name(IntentGoalType::TrustProfileUpdate) == "TRUST_PROFILE_UPDATE"@,
        goal_wire_name(IntentGoalType::BootstrapRole) == "BOOTSTRAP_ROLE"@,
        goal_wire_name(IntentGoalType::SystemAnchorPeriodic) == "SYSTEM_ANCHOR_PERIODIC"@,
        goal_wire_name(IntentGoalType::ApprovalInvalidate) == "APPROVAL_INVALIDATE"@,
        goal_wire_name(IntentGoalType::RoleExpire) == "ROLE_EXPIRE"@,
        goal_wire_name(IntentGoalType::CapabilityExpire) == "CAPABILITY_EXPIRE"@,
        goal_wire_name(IntentGoalType::SponsorRegister) == "SPONSOR_REGISTER"@,
        goal_wire_name(IntentGoalType::SponsorUpdate) == "SPONSOR_UPDATE"@,
        goal_wire_name(IntentGoalType::SponsorRevoke) == "SPONSOR_REVOKE"@,
        goal_wire_name(IntentGoalType::SponsorPause) == "SPONSOR_PAUSE"@,
        goal_wire_name(IntentGoalType::SponsorResume) == "SPONSOR_RESUME"@,
        goal_wire_name(IntentGoalType::DisputeResolve) == "DISPUTE_RESOLVE"@,
        goal_wire_name(IntentGoalType::RulePackEval) == "RULE_PACK_EVAL"@,
        goal_wire_name(IntentGoalType::VerifierRun) == "VERIFIER_RUN"@,
        goal_wire_name(IntentGoalType::ExternalAdapterCall) == "EXTERNAL_ADAPTER_CALL"@,
        goal_wire_name(IntentGoalType::AgentRun) == "AGENT_RUN"@,
        goal_wire_name(IntentGoalType::ConfidentialExec) == "CONFIDENTIAL_EXEC"@,
        goal_wire_name(IntentGoalType::SubsystemAction) == "SUBSYSTEM_ACTION"@,
        goal_wire_name(IntentGoalType::PluginUpgrade) == "PLUGIN_UPGRADE"@,
        goal_wire_name(IntentGoalType::PluginRegister) == "PLUGIN_REGISTER"@,
{
}

/// A number read off a wire name: its length and its first, second and
/// fourth-last characters. It differs between any two goal types' names.
pub open spec fn wire_key(s: Seq<char>) -> int {
    s.len() * 16777216 + (s[0] as int) * 65536 + (s[1] as int) * 256 + (s[s.len() - 4] as int)
}

/// The key of each goal type's wire name.
spec fn goal_key(g: IntentGoalType) -> int {
    match g {
        IntentGoalType::Convert => 121851734,
        IntentGoalType::EarnYield => 172310857,
        IntentGoalType::Borrow => 105008978,
        IntentGoalType::ProvideLiquidity => 290476612,
        IntentGoalType::Swap => 72570707,
        IntentGoalType::Stake => 89347156,
        IntentGoalType::Bridge => 105009737,
        IntentGoalType::Compound => 138628943,
        IntentGoalType::Custom => 105076051,
        IntentGoalType::ObjectCreate => 223298117,
        IntentGoalType::ObjectMutate => 223298132,
        IntentGoalType::PolicyBind => 189812546,
        IntentGoalType::CapabilityGrant => 272843090,
        IntentGoalType::WorkflowStart => 240602964,
        IntentGoalType::CredentialIssue => 272847443,
        IntentGoalType::VaultCreate => 206979397,
        IntentGoalType::Settlement => 173229389,
        IntentGoalType::SettlementNetting => 307447124,
        IntentGoalType::ObjectTransition => 290406996,
        IntentGoalType::PolicyChange => 223366977,
        IntentGoalType::ContractUpgrade => 272846674,
        IntentGoalType::PatchPropagation => 290472276,
        IntentGoalType::RevertTransaction => 307381588,
        IntentGoalType::RoleAssign => 189943635,
        IntentGoalType::RoleRevoke => 189943638,
        IntentGoalType::RoleSuspend => 206720848,
        IntentGoalType::RoleEmergency => 240275269,
        IntentGoalType::RoleNormalize => 240275276,
        IntentGoalType::DisclosureGrant => 272910674,
        IntentGoalType::DisclosureRevoke => 289687894,
        IntentGoalType::ContractDeploy => 256069456,
        IntentGoalType::ContractCall => 222515011,
        IntentGoalType::SwarmCreate => 206788421,
        IntentGoalType::SwarmJoin => 173233994,
        IntentGoalType::SwarmCoordinate => 273897294,
        IntentGoalType::SwarmDissolve => 240342863,
        IntentGoalType::ShapeTransition => 273893460,
        IntentGoalType::BridgeSend => 188895827,
        IntentGoalType::BridgeReceive => 239227461,
        IntentGoalType::CapabilityRevoke => 289620310,
        IntentGoalType::PolicyUnbind => 223366978,
        IntentGoalType::AnchorForce => 205606479,
        IntentGoalType::TrustProfileCreate => 341070405,
        IntentGoalType::TrustProfileUpdate => 341070404,
        IntentGoalType::BootstrapRole => 239226706,
        IntentGoalType::SystemAnchorPeriodic => 374561103,
        IntentGoalType::ApprovalInvalidate => 323047492,
        IntentGoalType::RoleExpire => 189943632,
        IntentGoalType::CapabilityExpire => 289620304,
        IntentGoalType::SponsorRegister => 273895507,
        IntentGoalType::SponsorUpdate => 240341060,
        IntentGoalType::SponsorRevoke => 240341078,
        IntentGoalType::SponsorPause => 223563841,
        IntentGoalType::SponsorResume => 240341075,
        IntentGoalType::DisputeResolve => 256133455,
        IntentGoalType::RulePackEval => 240276805,
        IntentGoalType::VerifierRun => 206980447,
        IntentGoalType::ExternalAdapterCall => 356866115,
        IntentGoalType::AgentRun => 155273055,
        IntentGoalType::ConfidentialExec => 289623877,
        IntentGoalType::SubsystemAction => 273896788,
        IntentGoalType::PluginUpgrade => 240143442,
        IntentGoalType::PluginRegister => 256920659,
    }
}

/// The goal type a key belongs to.
spec fn goal_of_key(k: int) -> IntentGoalType {
    if k == 121851734 {
        IntentGoalType::Convert
    } else if k == 172310857 {
        IntentGoalType::EarnYield
    } else if k == 105008978 {
        IntentGoalType::Borrow
    } else if k == 290476612 {
        IntentGoalType::ProvideLiquidity
    } else if k == 72570707 {
        IntentGoalType::Swap
    } else if k == 89347156 {
        IntentGoalType::Stake
    } else if k == 105009737 {
        IntentGoalType::Bridge
    } else if k == 138628943 {
        IntentGoalType::Compound
    } else if k == 105076051 {
        IntentGoalType::Custom
    } else if k == 223298117 {
        IntentGoalType::ObjectCreate
    } else if k == 223298132 {
        IntentGoalType::ObjectMutate
    } else if k == 189812546 {
        IntentGoalType::PolicyBind
    } else if k == 272843090 {
        IntentGoalType::CapabilityGrant
    } else if k == 240602964 {
        IntentGoalType::WorkflowStart
    } else if k == 272847443 {
        IntentGoalType::CredentialIssue
    } else if k == 206979397 {
        IntentGoalType::VaultCreate
    } else if k == 173229389 {
        IntentGoalType::Settlement
    } else if k == 307447124 {
        IntentGoalType::SettlementNetting
    } else if k == 290406996 {
        IntentGoalType::ObjectTransition
    } else if k == 223366977 {
        IntentGoalType::PolicyChange
    } else if k == 272846674 {
        IntentGoalType::ContractUpgrade
    } else if k == 290472276 {
        IntentGoalType::PatchPropagation
    } else if k == 307381588 {
        IntentGoalType::RevertTransaction
    } else if k == 189943635 {
        IntentGoalType::RoleAssign
    } else if k == 189943638 {
        IntentGoalType::RoleRevoke
    } else if k == 206720848 {
        IntentGoalType::RoleSuspend
    } else if k == 240275269 {
        IntentGoalType::RoleEmergency
    } else if k == 240275276 {
        IntentGoalType::RoleNormalize
    } else if k == 272910674 {
        IntentGoalType::DisclosureGrant
    } else if k == 289687894 {
        IntentGoalType::DisclosureRevoke
    } else if k == 256069456 {
        IntentGoalType::ContractDeploy
    } else if k == 222515011 {
        IntentGoalType::ContractCall
    } else if k == 206788421 {
        IntentGoalType::SwarmCreate
    } else if k == 173233994 {
        IntentGoalType::SwarmJoin
    } else if k == 273897294 {
        IntentGoalType::SwarmCoordinate
    } else if k == 240342863 {
        IntentGoalType::SwarmDissolve
    } else if k == 273893460 {
        IntentGoalType::ShapeTransition
    } else if k == 188895827 {
        IntentGoalType::BridgeSend
    } else if k == 239227461 {
        IntentGoalType::BridgeReceive
    } else if k == 289620310 {
        IntentGoalType::CapabilityRevoke
    } else if k == 223366978 {
        IntentGoalType::PolicyUnbind
    } else if k == 205606479 {
        IntentGoalType::AnchorForce
    } else if k == 341070405 {
        IntentGoalType::TrustProfileCreate
    } else if k == 341070404 {
        IntentGoalType::TrustProfileUpdate
    } else if k == 239226706 {
        IntentGoalType::BootstrapRole
    } else if k == 374561103 {
        IntentGoalType::SystemAnchorPeriodic
    } else if k == 323047492 {
        IntentGoalType::ApprovalInvalidate
    } else if k == 189943632 {
        IntentGoalType::RoleExpire
    } else if k == 289620304 {
        IntentGoalType::CapabilityExpire
    } else if k == 273895507 {
        IntentGoalType::SponsorRegister
    } else if k == 240341060 {
        IntentGoalType::SponsorUpdate
    } else if k == 240341078 {
        IntentGoalType::SponsorRevoke
    } else if k == 223563841 {
        IntentGoalType::SponsorPause
    } else if k == 240341075 {
        IntentGoalType::SponsorResume
    } else if k == 256133455 {
        IntentGoalType::DisputeResolve
    } else if k == 240276805 {
        IntentGoalType::RulePackEval
    } else if k == 206980447 {
        IntentGoalType::VerifierRun
    } else if k == 356866115 {
        IntentGoalType::ExternalAdapterCall
    } else if k == 155273055 {
        IntentGoalType::AgentRun
    } else if k == 289623877 {
        IntentGoalType::ConfidentialExec
    } else if k == 273896788 {
        IntentGoalType::SubsystemAction
    } else if k == 240143442 {
        IntentGoalType::PluginUpgrade
    } else {
        IntentGoalType::PluginRegister
    }
}

proof fn lemma_goal_key(g: IntentGoalType)
    ensures
        wire_key(goal_wire_name(g)) == goal_key(g),
        goal_of_key(goal_key(g)) == g,
{
    match g {
        IntentGoalType::Convert => {
            reveal_strlit("CONVERT");
        },
        IntentGoalType::EarnYield => {
            reveal_strlit("EARN_YIELD");
        },
        IntentGoalType::Borrow => {
            reveal_strlit("BORROW");
        },
        IntentGoalType::ProvideLiquidity => {
            reveal_strlit("PROVIDE_LIQUIDITY");
        },
        IntentGoalType::Swap => {
            reveal_strlit("SWAP");
        },
        IntentGoalType::Stake => {
            reveal_strlit("STAKE");
        },
        IntentGoalType::Bridge => {
            reveal_strlit("BRIDGE");
        },
        IntentGoalType::Compound => {
            reveal_strlit("COMPOUND");
        },
        IntentGoalType::Custom => {
            reveal_strlit("CUSTOM");
        },
        IntentGoalType::ObjectCreate => {
            reveal_strlit("OBJECT_CREATE");
        },
        IntentGoalType::ObjectMutate => {
            reveal_strlit("OBJECT_MUTATE");
        },
        IntentGoalType::PolicyBind => {
            reveal_strlit("POLICY_BIND");
        },
        IntentGoalType::CapabilityGrant => {
            reveal_strlit("CAPABILITY_GRANT");
        },
        IntentGoalType::WorkflowStart => {
            reveal_strlit("WORKFLOW_START");
        },
        IntentGoalType::CredentialIssue => {
            reveal_strlit("CREDENTIAL_ISSUE");
        },
        IntentGoalType::VaultCreate => {
            reveal_strlit("VAULT_CREATE");
        },
        IntentGoalType::Settlement => {
            reveal_strlit("SETTLEMENT");
        },
        IntentGoalType::SettlementNetting => {
            reveal_strlit("SETTLEMENT_NETTING");
        },
        IntentGoalType::ObjectTransition => {
            reveal_strlit("OBJECT_TRANSITION");
        },
        IntentGoalType::PolicyChange => {
            reveal_strlit("POLICY_CHANGE");
        },
        IntentGoalType::ContractUpgrade => {
            reveal_strlit("CONTRACT_UPGRADE");
        },
        IntentGoalType::PatchPropagation => {
            reveal_strlit("PATCH_PROPAGATION");
        },
        IntentGoalType::RevertTransaction => {
            reveal_strlit("REVERT_TRANSACTION");
        },
        IntentGoalType::RoleAssign => {
            reveal_strlit("ROLE_ASSIGN");
        },
        IntentGoalType::RoleRevoke => {
            reveal_strlit("ROLE_REVOKE");
        },
        IntentGoalType::RoleSuspend => {
            reveal_strlit("ROLE_SUSPEND");
        },
        IntentGoalType::RoleEmergency => {
            reveal_strlit("ROLE_EMERGENCY");
        },
        IntentGoalType::RoleNormalize => {
            reveal_strlit("ROLE_NORMALIZE");
        },
        IntentGoalType::DisclosureGrant => {
            reveal_strlit("DISCLOSURE_GRANT");
        },
        IntentGoalType::DisclosureRevoke => {
            reveal_strlit("DISCLOSURE_REVOKE");
        },
        IntentGoalType::ContractDeploy => {
            reveal_strlit("CONTRACT_DEPLOY");
        },
        IntentGoalType::ContractCall => {
            reveal_strlit("CONTRACT_CALL");
        },
        IntentGoalType::SwarmCreate => {
            reveal_strlit("SWARM_CREATE");
        },
        IntentGoalType::SwarmJoin => {
            reveal_strlit("SWARM_JOIN");
        },
        IntentGoalType::SwarmCoordinate => {
            reveal_strlit("SWARM_COORDINATE");
        },
        IntentGoalType::SwarmDissolve => {
            reveal_strlit("SWARM_DISSOLVE");
        },
        IntentGoalType::ShapeTransition => {
            reveal_strlit("SHAPE_TRANSITION");
        },
        IntentGoalType::BridgeSend => {
            reveal_strlit("BRIDGE_SEND");
        },
        IntentGoalType::BridgeReceive => {
            reveal_strlit("BRIDGE_RECEIVE");
        },
        IntentGoalType::CapabilityRevoke => {
            reveal_strlit("CAPABILITY_REVOKE");
        },
        IntentGoalType::PolicyUnbind => {
            reveal_strlit("POLICY_UNBIND");
        },
        IntentGoalType::AnchorForce => {
            reveal_strlit("ANCHOR_FORCE");
        },
        IntentGoalType::TrustProfileCreate => {
            reveal_strlit("TRUST_PROFILE_CREATE");
        },
        IntentGoalType::TrustProfileUpdate => {
            reveal_strlit("TRUST_PROFILE_UPDATE");
        },
        IntentGoalType::BootstrapRole => {
            reveal_strlit("BOOTSTRAP_ROLE");
        },
        IntentGoalType::SystemAnchorPeriodic => {
            reveal_strlit("SYSTEM_ANCHOR_PERIODIC");
        },
        IntentGoalType::ApprovalInvalidate => {
            reveal_strlit("APPROVAL_INVALIDATE");
        },
        IntentGoalType::RoleExpire => {
            reveal_strlit("ROLE_EXPIRE");
        },
        IntentGoalType::CapabilityExpire => {
            reveal_strlit("CAPABILITY_EXPIRE");
        },
        IntentGoalType::SponsorRegister => {
            reveal_strlit("SPONSOR_REGISTER");
        },
        IntentGoalType::SponsorUpdate => {
            reveal_strlit("SPONSOR_UPDATE");
        },
        IntentGoalType::SponsorRevoke => {
            reveal_strlit("SPONSOR_REVOKE");
        },
        IntentGoalType::SponsorPause => {
            reveal_strlit("SPONSOR_PAUSE");
        },
        IntentGoalType::SponsorResume => {
            reveal_strlit("SPONSOR_RESUME");
        },
        IntentGoalType::DisputeResolve => {
            reveal_strlit("DISPUTE_RESOLVE");
        },
        IntentGoalType::RulePackEval => {
            reveal_strlit("RULE_PACK_EVAL");
        },
        IntentGoalType::VerifierRun => {
            reveal_strlit("VERIFIER_RUN");
        },
        IntentGoalType::ExternalAdapterCall => {
            reveal_strlit("EXTERNAL_ADAPTER_CALL");
        },
        IntentGoalType::AgentRun => {
            reveal_strlit("AGENT_RUN");
        },
        IntentGoalType::ConfidentialExec => {
            reveal_strlit("CONFIDENTIAL_EXEC");
        },
        IntentGoalType::SubsystemAction => {
            reveal_strlit("SUBSYSTEM_ACTION");
        },
        IntentGoalType::PluginUpgrade => {
            reveal_strlit("PLUGIN_UPGRADE");
        },
        IntentGoalType::PluginRegister => {
            reveal_strlit("PLUGIN_REGISTER");
        },
    }
}

/// Distinct goal types have distinct wire names: `as_str` never sends two
/// goal types under one name.
pub proof fn lemma_wire_names_distinct(a: IntentGoalType, b: IntentGoalType)
    requires
        a != b,
    ensures
        goal_wire_name(a) != goal_wire_name(b),
{
    lemma_goal_key(a);
    lemma_goal_key(b);
}

impl IntentGoalType {
    /// Returns the canonical wire-format string for this goal type.
    pub fn as_str(&self) -> (r: &'static str)
        ensures
            r@ == goal_wire_name(*self),
    {
        match self {
            IntentGoalType::Convert => "CONVERT",
            IntentGoalType::EarnYield => "EARN_YIELD",
            IntentGoalType::Borrow => "BORROW",
            IntentGoalType::ProvideLiquidity => "PROVIDE_LIQUIDITY",
            IntentGoalType::Swap => "SWAP",
            IntentGoalType::Stake => "STAKE",
            IntentGoalType::Bridge => "BRIDGE",
            IntentGoalType::Compound => "COMPOUND",
            IntentGoalType::Custom => "CUSTOM",
            IntentGoalType::ObjectCreate => "OBJECT_CREATE",
            IntentGoalType::ObjectMutate => "OBJECT_MUTATE",
            IntentGoalType::PolicyBind => "POLICY_BIND",
            IntentGoalType::CapabilityGrant => "CAPABILITY_GRANT",
            IntentGoalType::WorkflowStart => "WORKFLOW_START",
            IntentGoalType::CredentialIssue => "CREDENTIAL_ISSUE",
            IntentGoalType::VaultCreate => "VAULT_CREATE",
            IntentGoalType::Settlement => "SETTLEMENT",
            IntentGoalType::SettlementNetting => "SETTLEMENT_NETTING",
            IntentGoalType::ObjectTransition => "OBJECT_TRANSITION",
            IntentGoalType::PolicyChange => "POLICY_CHANGE",
            IntentGoalType::ContractUpgrade => "CONTRACT_UPGRADE",
            IntentGoalType::PatchPropagation => "PATCH_PROPAGATION",
            IntentGoalType::RevertTransaction => "REVERT_TRANSACTION",
            IntentGoalType::RoleAssign => "ROLE_ASSIGN",
            IntentGoalType::RoleRevoke => "ROLE_REVOKE",
            IntentGoalType::RoleSuspend => "ROLE_SUSPEND",
            IntentGoalType::RoleEmergency => "ROLE_EMERGENCY",
            IntentGoalType::RoleNormalize => "ROLE_NORMALIZE",
            IntentGoalType::DisclosureGrant => "DISCLOSURE_GRANT",
            IntentGoalType::DisclosureRevoke => "DISCLOSURE_REVOKE",
            IntentGoalType::ContractDeploy => "CONTRACT_DEPLOY",
            IntentGoalType::ContractCall => "CONTRACT_CALL",
            IntentGoalType::SwarmCreate => "SWARM_CREATE",
            IntentGoalType::SwarmJoin => "SWARM_JOIN",
            IntentGoalType::SwarmCoordinate => "SWARM_COORDINATE",
            IntentGoalType::SwarmDissolve => "SWARM_DISSOLVE",
            IntentGoalType::ShapeTransition => "SHAPE_TRANSITION",
            IntentGoalType::BridgeSend => "BRIDGE_SEND",
            IntentGoalType::BridgeReceive => "BRIDGE_RECEIVE",
            IntentGoalType::CapabilityRevoke => "CAPABILITY_REVOKE",
            IntentGoalType::PolicyUnbind => "POLICY_UNBIND",
            IntentGoalType::AnchorForce => "ANCHOR_FORCE",
            IntentGoalType::TrustProfileCreate => "TRUST_PROFILE_CREATE",
            IntentGoalType::TrustProfileUpdate => "TRUST_PROFILE_UPDATE",
            IntentGoalType::BootstrapRole => "BOOTSTRAP_ROLE",
            IntentGoalType::SystemAnchorPeriodic => "SYSTEM_ANCHOR_PERIODIC",
            IntentGoalType::ApprovalInvalidate => "APPROVAL_INVALIDATE",
            IntentGoalType::RoleExpire => "ROLE_EXPIRE",
            IntentGoalType::CapabilityExpire => "CAPABILITY_EXPIRE",
            IntentGoalType::SponsorRegister => "SPONSOR_REGISTER",
            IntentGoalType::SponsorUpdate => "SPONSOR_UPDATE",
            IntentGoalType::SponsorRevoke => "SPONSOR_REVOKE",
            IntentGoalType::SponsorPause => "SPONSOR_PAUSE",
            IntentGoalType::SponsorResume => "SPONSOR_RESUME",
            IntentGoalType::DisputeResolve => "DISPUTE_RESOLVE",
            IntentGoalType::RulePackEval => "RULE_PACK_EVAL",
            IntentGoalType::VerifierRun => "VERIFIER_RUN",
            IntentGoalType::ExternalAdapterCall => "EXTERNAL_ADAPTER_CALL",
            IntentGoalType::AgentRun => "AGENT_RUN",
            IntentGoalType::ConfidentialExec => "CONFIDENTIAL_EXEC",
            IntentGoalType::SubsystemAction => "SUBSYSTEM_ACTION",
            IntentGoalType::PluginUpgrade => "PLUGIN_UPGRADE",
            IntentGoalType::PluginRegister => "PLUGIN_REGISTER",
        }
    }
}

/// The desired outcome of an intent.
#[derive(Clone, Debug)]
pub struct IntentGoal {
    pub goal_type: IntentGoalType,
    pub source_assets: Vec<AssetAmount>,
    pub target_assets: Vec<AssetAmount>,
    pub target_state: Option<TargetStateSpec>,
    pub via: Option<String>,
    pub custom_type: Option<String>,
}

/// Asset and quantity.
#[derive(Clone, Debug)]
pub struct AssetAmount {
    pub asset: String,
    pub amount: u64,
    pub amount_decimal: Option<String>,
    pub is_minimum: bool,
    pub is_maximum: bool,
}

/// Desired on-chain state.
#[derive(Clone, Debug)]
pub struct TargetStateSpec {
    pub state_type: String,
    pub parameters: Vec<(String, String)>,
    pub contract: Option<String>,
}

/// Current status of an intent.
#[derive(Clone, Debug, PartialEq, Eq, Structural)]
pub enum IntentStatus {
    Pending,
    Planning,
    AwaitingApproval,
    Executing,
    Completed,
    Failed,
    Cancelled,
    Expired,
}

/// Result returned from intent submission.
#[derive(Clone, Debug)]
pub struct IntentResult {
    pub intent_id: String,
    pub status: IntentStatus,
    pub plan_id: Option<String>,
    pub outcome_id: Option<String>,
    pub gas_used: Option<u64>,
    pub error: Option<String>,
}

/// Canonical spine stages.
#[derive(Clone, Copy, Debug, PartialEq, Eq, Structural)]
pub enum SpineStage {
    Intent,
    Plan,
    Approval,
    Execution,
    Outcome,
    Evidence,
    Anchor,
}

/// A single step in the execution plan.
#[derive(Clone, Debug)]
pub struct PlanStep {
    pub stage_id: String,
    pub stage_name: String,
    /// Canonical spine stage this step represents.
    pub spine_stage: SpineStage,
    pub step_type: PlanStepType,
    pub description: String,
    pub gas_estimate: u64,
    pub policy_condition: Option<String>,
    pub execution_target: Option<String>,
    pub depends_on: Vec<String>,
    pub expected_output: Option<String>,
}

/// Plan step types.
#[derive(Clone, Debug, PartialEq, Eq, Structural)]
pub enum PlanStepType {
    ContractCall,
    ContractDeploy,
    ObjectCreate,
    ObjectMutate,
    ObjectTransition,
    PolicyCheck,
    ApprovalGate,
    Settlement,
    BridgeAction,
    ExternalProof,
    Wait,
    Compensate,
    SwarmAction,
    Anchor,
    SettlementLeg,
    EscrowCreate,
    EscrowRelease,
    CapabilityGrant,
    CapabilityRevoke,
    RoleAssign,
    RoleRevoke,
    PolicyEvaluate,
    ApprovalCheckpoint,
    EvidenceAnchor,
    L0Transfer,
    L0DataWrite,
    Compensation,
}

/// Approval requirement within a plan.
#[derive(Clone, Debug)]
pub struct PlanApprovalReq {
    pub stage_id: String,
    pub roles: Vec<String>,
    pub identities: Vec<String>,
    pub threshold: u32,
}

/// Outcome finality states.
#[derive(Clone, Debug, PartialEq, Eq, Structural)]
pub enum OutcomeFinality {
    Provisional,
    LocallyFinal,
    ExternalContingent,
    Compensated,
    Disputed,
    L0AnchoredFinal,
}

/// A signed approval envelope.
#[derive(Clone, Debug)]
pub struct ApprovalEnvelope {
    pub id: String,
    pub target_type: String,
    pub target_id: String,
    pub plan_hash: [u8; 32],
    pub signer_identity: String,
    pub signer_role: Option<String>,
    pub signature: Option<Vec<u8>>,
    pub status: String,
}

/// Trust profile for a bridge adapter.
#[derive(Clone, Debug)]
pub struct TrustProfile {
    pub id: String,
    pub source_domain: String,
    pub chain_id: Option<String>,
    pub proof_type: String,
    pub trust_assumption: String,
    pub finality_model: String,
    pub min_confirmations: Option<u64>,
    pub validator_set_size: Option<u32>,
    pub quorum_threshold: Option<String>,
}

/// Result of evaluating a trust profile.
#[derive(Clone, Debug)]
pub struct TrustEvaluation {
    pub profile_id: String,
    pub passed: bool,
    pub checks: Vec<TrustCheck>,
}

/// Individual trust check result.
#[derive(Clone, Debug)]
pub struct TrustCheck {
    pub requirement: String,
    pub actual: String,
    pub passed: bool,
}

/// Bridge proof types.
#[derive(Clone, Debug, PartialEq, Eq, Structural)]
pub enum BridgeProofType {
    MerkleInclusion,
    ValidatorSigned,
    LightClient,
    ZkBridge,
    Optimistic,
    Oracle,
}

/// Trust assumptions.
#[derive(Clone, Debug, PartialEq, Eq, Structural)]
pub enum TrustAssumption {
    Trustless,
    PowMajority,
    HonestMajority,
    BftQuorum,
    HonestMinority,
    SingleHonest,
    Optimistic,
    TrustedOperator,
    TrustedOracle,
    Cryptographic,
    EconomicSecurity,
}

/// A capability grant.
#[derive(Clone, Debug)]
pub struct CapabilityGrant {
    pub id: String,
    pub grantor: String,
    pub grantee: String,
    pub capabilities: Vec<String>,
    pub scope: String,
    pub status: String,
}

/// A role binding.
#[derive(Clone, Debug)]
pub struct RoleBinding {
    pub id: String,
    pub holder_identity: String,
    pub role_name: String,
    pub scope_type: String,
    pub scope_target: String,
    pub status: String,
}

/// Settlement instruction.
#[derive(Clone, Debug)]
pub struct SettlementInstruction {
    pub id: String,
    pub legs: Vec<SettlementLeg>,
    pub status: String,
    pub required_approvals: u32,
    pub current_approvals: u32,
}

/// A single leg of a settlement.
#[derive(Clone, Debug)]
pub struct SettlementLeg {
    pub leg_id: String,
    pub from_account: String,
    pub to_account: String,
    pub asset: String,
    pub amount: u64,
    pub sequence: u32,
}

/// An escrow.
#[derive(Clone, Debug)]
pub struct Escrow {
    pub id: String,
    pub depositor: String,
    pub beneficiary: String,
    pub asset: String,
    pub amount: u64,
    pub status: String,
}

/// Evidence bundle.
#[derive(Clone, Debug)]
pub struct EvidenceBundle {
    pub id: String,
    pub intent_id: String,
    pub plan_id: String,
    pub chain_hash: [u8; 32],
    pub state_root: [u8; 32],
    pub anchor_status: String,
}

/// Anchored record.
#[derive(Clone, Debug)]
pub struct AnchoredRecord {
    pub id: String,
    pub artifact_type: String,
    pub artifact_hash: [u8; 32],
    pub l0_tx_hash: [u8; 32],
    pub l0_data_account: String,
    pub status: String,
}

/// Disclosure grant.
#[derive(Clone, Debug)]
pub struct DisclosureGrant {
    pub id: String,
    pub grantor_identity: String,
    pub grantee_identity: String,
    pub target_type: String,
    pub target_id: String,
    pub disclosed_fields: Vec<String>,
    pub status: String,
}

/// Result of evaluating a policy.
#[derive(Clone, Debug)]
pub struct PolicyEvaluationResult {
    pub allowed: bool,
    pub matched_rules: Vec<PolicyDecision>,
    pub denied_by: Option<String>,
    pub requires_approval: bool,
    pub required_roles: Vec<String>,
}

/// A single policy decision.
#[derive(Clone, Debug)]
pub struct PolicyDecision {
    pub rule_id: String,
    pub rule_name: String,
    pub action: String,
    pub result: String,
    pub evaluation_ms: u64,
}

/// A single link in an evidence chain.
#[derive(Clone, Debug)]
pub struct EvidenceLink {
    pub sequence: u32,
    pub link_type: String,
    pub content_hash: [u8; 32],
    pub prev_hash: [u8; 32],
    pub timestamp: String,
    pub stage_id: Option<String>,
}

/// Approval reference within an outcome.
#[derive(Clone, Debug)]
pub struct ApprovalRef {
    pub stage_id: String,
    pub identity: String,
    pub role: String,
    pub plan_hash: [u8; 32],
    pub signed_at: String,
}

/// Anchor class — classifies the anchoring treatment for an artifact type.
#[derive(Clone, Debug, PartialEq, Eq, Structural)]
pub enum AnchorClass {
    NoAnchor,
    DigestOnly,
    Batch,
    Full,
}

/// Privacy class — disclosure privacy classification for object fields.
#[derive(Clone, Debug, PartialEq, Eq, Structural)]
pub enum PrivacyClass {
    Public,
    Internal,
    Confidential,
    Restricted,
    Secret,
    NeverDisclosable,
    ZkpOnly,
}

/// Settlement method — how value is moved in a settlement instruction.
#[derive(Clone, Debug, PartialEq, Eq, Structural)]
pub enum SettlementMethod {
    Atomic,
    Dvp,
    Phased,
    Netting,
    Bridge,
    Escrow,
    Regulated,
}

/// Execution family — the category of execution runtime for a plan step.
#[derive(Clone, Debug, PartialEq, Eq, Structural)]
pub enum ExecutionFamily {
    Wasm,
    ObjectOp,
    Settlement,
    Bridge,
    ApprovalGate,
    PolicyCheck,
    DisclosureAction,
    SwarmAction,
    Anchor,
    Wait,
    ExternalProof,
    RulePack,
    VerifierPlugin,
    ExternalAdapter,
    AgentModule,
    Confidential,
}

/// Trust response action — deterministic downstream effect of trust drift.
#[derive(Clone, Debug, PartialEq, Eq, Structural)]
pub enum TrustResponseAction {
    PausePlan,
    InvalidateApproval,
    DowngradeEvidence,
    BlockFinality,
}

impl Default for IntentGoal {
    fn default() -> (r: Self)
        ensures
            r.goal_type == IntentGoalType::Custom,
            r.source_assets@.len() == 0,
            r.target_assets@.len() == 0,
            r.target_state is None,
            r.via is None,
            r.custom_type is None,
    {
        IntentGoal {
            goal_type: IntentGoalType::Custom,
            source_assets: Vec::new(),
            target_assets: Vec::new(),
            target_state: None,
            via: None,
            custom_type: None,
        }
    }
}

/// The intent goal JSON of a call of `method_name` on the contract at
/// `contract_address`.
pub open spec fn call_goal_json(contract_address: Seq<u8>, method_name: Seq<u8>) -> Seq<u8> {
    "{\"type\":\"CONTRACT_CALL\",\"contract\":\""@.map_values(|c: char| c as u8)
        + contract_address + "\",\"method\":\""@.map_values(|c: char| c as u8) + method_name
        + "\"}"@.map_values(|c: char| c as u8)
}

/// Appends the bytes of an ASCII string.
fn push_ascii(buf: &mut Vec<u8>, s: &str)
    requires
        vstd::string::is_ascii(s),
    ensures
        final(buf)@ == old(buf)@ + s@.map_values(|c: char| c as u8),
{
    proof { broadcast use vstd::string::is_ascii_spec_bytes; }
    let b = s.as_bytes();
    assert(b@ =~= s@.map_values(|c: char| c as u8));
    push_bytes(buf, b);
}

/// Appends bytes.
fn push_bytes(buf: &mut Vec<u8>, b: &[u8])
    ensures
        final(buf)@ == old(buf)@ + b@,
{
    let ghost start = buf@;
    let mut i: usize = 0;
    while i < b.len()
        invariant
            i <= b@.len(),
            buf@ == start + b@.take(i as int),
        decreases b@.len() - i,
    {
        buf.push(b[i]);
        assert(buf@ =~= start + b@.take(i + 1));
        i = i + 1;
    }
    assert(b@.take(b@.len() as int) =~= b@);
}

/// Serializes the goal of a contract call as the JSON the runtime accepts
/// for intent submission:
/// `{"type":"CONTRACT_CALL","contract":"<address>","method":"<method>"}`,
/// the address and method written as given.
pub fn serialize_call_goal(contract_address: &str, method_name: &str) -> (r: Vec<u8>)
    ensures
        r@ == call_goal_json(contract_address.spec_bytes(), method_name.spec_bytes()),
{
    let mut buf: Vec<u8> = Vec::new();
    proof {
        reveal_strlit("{\"type\":\"CONTRACT_CALL\",\"contract\":\"");
        reveal_strlit("\",\"method\":\"");
        reveal_strlit("\"}");
    }
    push_ascii(&mut buf, "{\"type\":\"CONTRACT_CALL\",\"contract\":\"");
    push_bytes(&mut buf, contract_address.as_bytes());
    push_ascii(&mut buf, "\",\"method\":\"");
    push_bytes(&mut buf, method_name.as_bytes());
    push_ascii(&mut buf, "\"}");
    buf
}

} // verus!
