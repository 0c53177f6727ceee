//! The names under which enumerated values are stored in the database, and
//! their reading back.

use vstd::prelude::*;
use crate::error::{ApiError, ApiResult, ErrorCode, plain_error};
use crate::settings::{parse_i64, parsed_i64, is_digit, lemma_decimal_text_value};
use crate::text::{owned, push_str, str_eq, starts_with, has_prefix, decimal_text, digit_char, u64_to_string};

verus! {

/// The status of a trajectory.
#[derive(Debug, Clone, Copy, PartialEq, Eq, Structural)]
pub enum TrajectoryStatus {
    Active,
    Completed,
    Failed,
    Suspended,
}

/// The text a trajectory status is stored as.
pub open spec fn trajectory_status_name(v: TrajectoryStatus) -> Seq<char> {
    match v {
        TrajectoryStatus::Active => "active"@,
        TrajectoryStatus::Completed => "completed"@,
        TrajectoryStatus::Failed => "failed"@,
        TrajectoryStatus::Suspended => "suspended"@,
    }
}

/// The trajectory status a stored text names, if any.
pub open spec fn trajectory_status_name_parsed(s: Seq<char>) -> Option<TrajectoryStatus> {
    if s == "active"@ { Some(TrajectoryStatus::Active) } else
    if s == "completed"@ { Some(TrajectoryStatus::Completed) } else
    if s == "failed"@ { Some(TrajectoryStatus::Failed) } else
    if s == "suspended"@ { Some(TrajectoryStatus::Suspended) } else
    { None }
}

impl TrajectoryStatus {
    /// The text this value is stored as.
    pub fn as_str(&self) -> (s: &'static str)
        ensures
            s@ == trajectory_status_name(*self),
    {
        match self {
            TrajectoryStatus::Active => "active",
            TrajectoryStatus::Completed => "completed",
            TrajectoryStatus::Failed => "failed",
            TrajectoryStatus::Suspended => "suspended",
        }
    }

    /// The value a stored text names, if any.
    pub fn parse(s: &str) -> (r: Option<TrajectoryStatus>)
        ensures
            r == trajectory_status_name_parsed(s@),
    {
        if str_eq(s, "active") {
            Some(TrajectoryStatus::Active)
        } else if str_eq(s, "completed") {
            Some(TrajectoryStatus::Completed)
        } else if str_eq(s, "failed") {
            Some(TrajectoryStatus::Failed)
        } else if str_eq(s, "suspended") {
            Some(TrajectoryStatus::Suspended)
        } else {
            None
        }
    }
}

/// Reading back the stored text of a trajectory status gives the same value.
pub proof fn lemma_trajectory_status_name_round_trip(v: TrajectoryStatus)
    ensures
        trajectory_status_name_parsed(trajectory_status_name(v)) == Some(v),
{
    reveal_strlit("active");
    reveal_strlit("completed");
    reveal_strlit("failed");
    reveal_strlit("suspended");
    match v {
        TrajectoryStatus::Active => {},
        TrajectoryStatus::Completed => {
            assert("completed"@.len() == 9 && "active"@.len() == 6);
            assert("completed"@ != "active"@);
        },
        TrajectoryStatus::Failed => {
            assert("failed"@[0] == 'f' && "active"@[0] == 'a');
            assert("failed"@ != "active"@);
            assert("failed"@.len() == 6 && "completed"@.len() == 9);
            assert("failed"@ != "completed"@);
        },
        TrajectoryStatus::Suspended => {
            assert("suspended"@.len() == 9 && "active"@.len() == 6);
            assert("suspended"@ != "active"@);
            assert("suspended"@[0] == 's' && "completed"@[0] == 'c');
            assert("suspended"@ != "completed"@);
            assert("suspended"@.len() == 9 && "failed"@.len() == 6);
            assert("suspended"@ != "failed"@);
        },
    }
}

/// The role of the author of a turn.
#[derive(Debug, Clone, Copy, PartialEq, Eq, Structural)]
pub enum TurnRole {
    User,
    Assistant,
    System,
    Tool,
}

/// The text a turn role is stored as.
pub open spec fn turn_role_name(v: TurnRole) -> Seq<char> {
    match v {
        TurnRole::User => "user"@,
        TurnRole::Assistant => "assistant"@,
        TurnRole::System => "system"@,
        TurnRole::Tool => "tool"@,
    }
}

/// The turn role a stored text names, if any.
pub open spec fn turn_role_name_parsed(s: Seq<char>) -> Option<TurnRole> {
    if s == "user"@ { Some(TurnRole::User) } else
    if s == "assistant"@ { Some(TurnRole::Assistant) } else
    if s == "system"@ { Some(TurnRole::System) } else
    if s == "tool"@ { Some(TurnRole::Tool) } else
    { None }
}

impl TurnRole {
    /// The text this value is stored as.
    pub fn as_str(&self) -> (s: &'static str)
        ensures
            s@ == turn_role_name(*self),
    {
        match self {
            TurnRole::User => "user",
            TurnRole::Assistant => "assistant",
            TurnRole::System => "system",
            TurnRole::Tool => "tool",
        }
    }

    /// The value a stored text names, if any.
    pub fn parse(s: &str) -> (r: Option<TurnRole>)
        ensures
            r == turn_role_name_parsed(s@),
    {
        if str_eq(s, "user") {
            Some(TurnRole::User)
        } else if str_eq(s, "assistant") {
            Some(TurnRole::Assistant)
        } else if str_eq(s, "system") {
            Some(TurnRole::System)
        } else if str_eq(s, "tool") {
            Some(TurnRole::Tool)
        } else {
            None
        }
    }
}

/// Reading back the stored text of a turn role gives the same value.
pub proof fn lemma_turn_role_name_round_trip(v: TurnRole)
    ensures
        turn_role_name_parsed(turn_role_name(v)) == Some(v),
{
    reveal_strlit("user");
    reveal_strlit("assistant");
    reveal_strlit("system");
    reveal_strlit("tool");
    match v {
        TurnRole::User => {},
        TurnRole::Assistant => {
            assert("assistant"@.len() == 9 && "user"@.len() == 4);
            assert("assistant"@ != "user"@);
        },
        TurnRole::System => {
            assert("system"@.len() == 6 && "user"@.len() == 4);
            assert("system"@ != "user"@);
            assert("system"@.len() == 6 && "assistant"@.len() == 9);
            assert("system"@ != "assistant"@);
        },
        TurnRole::Tool => {
            assert("tool"@[0] == 't' && "user"@[0] == 'u');
            assert("tool"@ != "user"@);
            assert("tool"@.len() == 4 && "assistant"@.len() == 9);
            assert("tool"@ != "assistant"@);
            assert("tool"@.len() == 4 && "system"@.len() == 6);
            assert("tool"@ != "system"@);
        },
    }
}

/// The status of a trajectory's outcome.
#[derive(Debug, Clone, Copy, PartialEq, Eq, Structural)]
pub enum OutcomeStatus {
    Success,
    Failure,
    Partial,
}

/// The text a outcome status is stored as.
pub open spec fn outcome_status_name(v: OutcomeStatus) -> Seq<char> {
    match v {
        OutcomeStatus::Success => "success"@,
        OutcomeStatus::Failure => "failure"@,
        OutcomeStatus::Partial => "partial"@,
    }
}

/// The outcome status a stored text names, if any.
pub open spec fn outcome_status_name_parsed(s: Seq<char>) -> Option<OutcomeStatus> {
    if s == "success"@ { Some(OutcomeStatus::Success) } else
    if s == "failure"@ { Some(OutcomeStatus::Failure) } else
    if s == "partial"@ { Some(OutcomeStatus::Partial) } else
    { None }
}

impl OutcomeStatus {
    /// The text this value is stored as.
    pub fn as_str(&self) -> (s: &'static str)
        ensures
            s@ == outcome_status_name(*self),
    {
        match self {
            OutcomeStatus::Success => "success",
            OutcomeStatus::Failure => "failure",
            OutcomeStatus::Partial => "partial",
        }
    }

    /// The value a stored text names, if any.
    pub fn parse(s: &str) -> (r: Option<OutcomeStatus>)
        ensures
            r == outcome_status_name_parsed(s@),
    {
        if str_eq(s, "success") {
            Some(OutcomeStatus::Success)
        } else if str_eq(s, "failure") {
            Some(OutcomeStatus::Failure)
        } else if str_eq(s, "partial") {
            Some(OutcomeStatus::Partial)
        } else {
            None
        }
    }
}

/// Reading back the stored text of an outcome status gives the same value.
pub proof fn lemma_outcome_status_name_round_trip(v: OutcomeStatus)
    ensures
        outcome_status_name_parsed(outcome_status_name(v)) == Some(v),
{
    reveal_strlit("success");
    reveal_strlit("failure");
    reveal_strlit("partial");
    match v {
        OutcomeStatus::Success => {},
        OutcomeStatus::Failure => {
            assert("failure"@[0] == 'f' && "success"@[0] == 's');
            assert("failure"@ != "success"@);
        },
        OutcomeStatus::Partial => {
            assert("partial"@[0] == 'p' && "success"@[0] == 's');
            assert("partial"@ != "success"@);
            assert("partial"@[0] == 'p' && "failure"@[0] == 'f');
            assert("partial"@ != "failure"@);
        },
    }
}

/// How a piece of knowledge was extracted.
#[derive(Debug, Clone, Copy, PartialEq, Eq, Structural)]
pub enum ExtractionMethod {
    Explicit,
    Inferred,
    UserProvided,
}

/// The text a extraction method is stored as.
pub open spec fn extraction_method_name(v: ExtractionMethod) -> Seq<char> {
    match v {
        ExtractionMethod::Explicit => "explicit"@,
        ExtractionMethod::Inferred => "inferred"@,
        ExtractionMethod::UserProvided => "user_provided"@,
    }
}

/// The extraction method a stored text names, if any.
pub open spec fn extraction_method_name_parsed(s: Seq<char>) -> Option<ExtractionMethod> {
    if s == "explicit"@ { Some(ExtractionMethod::Explicit) } else
    if s == "inferred"@ { Some(ExtractionMethod::Inferred) } else
    if s == "user_provided"@ { Some(ExtractionMethod::UserProvided) } else
    { None }
}

impl ExtractionMethod {
    /// The text this value is stored as.
    pub fn as_str(&self) -> (s: &'static str)
        ensures
            s@ == extraction_method_name(*self),
    {
        match self {
            ExtractionMethod::Explicit => "explicit",
            ExtractionMethod::Inferred => "inferred",
            ExtractionMethod::UserProvided => "user_provided",
        }
    }

    /// The value a stored text names, if any.
    pub fn parse(s: &str) -> (r: Option<ExtractionMethod>)
        ensures
            r == extraction_method_name_parsed(s@),
    {
        if str_eq(s, "explicit") {
            Some(ExtractionMethod::Explicit)
        } else if str_eq(s, "inferred") {
            Some(ExtractionMethod::Inferred)
        } else if str_eq(s, "user_provided") {
            Some(ExtractionMethod::UserProvided)
        } else {
            None
        }
    }
}

/// Reading back the stored text of an extraction method gives the same value.
pub proof fn lemma_extraction_method_name_round_trip(v: ExtractionMethod)
    ensures
        extraction_method_name_parsed(extraction_method_name(v)) == Some(v),
{
    reveal_strlit("explicit");
    reveal_strlit("inferred");
    reveal_strlit("user_provided");
    match v {
        ExtractionMethod::Explicit => {},
        ExtractionMethod::Inferred => {
            assert("inferred"@[0] == 'i' && "explicit"@[0] == 'e');
            assert("inferred"@ != "explicit"@);
        },
        ExtractionMethod::UserProvided => {
            assert("user_provided"@.len() == 13 && "explicit"@.len() == 8);
            assert("user_provided"@ != "explicit"@);
            assert("user_provided"@.len() == 13 && "inferred"@.len() == 8);
            assert("user_provided"@ != "inferred"@);
        },
    }
}

/// The type of an artifact.
#[derive(Debug, Clone, Copy, PartialEq, Eq, Structural)]
pub enum ArtifactType {
    ErrorLog,
    CodePatch,
    DesignDecision,
    UserPreference,
    Fact,
    Constraint,
    ToolResult,
    IntermediateOutput,
    Custom,
    Code,
    Document,
    Data,
    Config,
    Log,
    Summary,
    Decision,
    Plan,
}

/// The text a artifact type is stored as.
pub open spec fn artifact_type_name(v: ArtifactType) -> Seq<char> {
    match v {
        ArtifactType::ErrorLog => "ErrorLog"@,
        ArtifactType::CodePatch => "CodePatch"@,
        ArtifactType::DesignDecision => "DesignDecision"@,
        ArtifactType::UserPreference => "UserPreference"@,
        ArtifactType::Fact => "Fact"@,
        ArtifactType::Constraint => "Constraint"@,
        ArtifactType::ToolResult => "ToolResult"@,
        ArtifactType::IntermediateOutput => "IntermediateOutput"@,
        ArtifactType::Custom => "Custom"@,
        ArtifactType::Code => "Code"@,
        ArtifactType::Document => "Document"@,
        ArtifactType::Data => "Data"@,
        ArtifactType::Config => "Config"@,
        ArtifactType::Log => "Log"@,
        ArtifactType::Summary => "Summary"@,
        ArtifactType::Decision => "Decision"@,
        ArtifactType::Plan => "Plan"@,
    }
}

/// The artifact type a stored text names, if any.
pub open spec fn artifact_type_name_parsed(s: Seq<char>) -> Option<ArtifactType> {
    if s == "ErrorLog"@ { Some(ArtifactType::ErrorLog) } else
    if s == "CodePatch"@ { Some(ArtifactType::CodePatch) } else
    if s == "DesignDecision"@ { Some(ArtifactType::DesignDecision) } else
    if s == "UserPreference"@ { Some(ArtifactType::UserPreference) } else
    if s == "Fact"@ { Some(ArtifactType::Fact) } else
    if s == "Constraint"@ { Some(ArtifactType::Constraint) } else
    if s == "ToolResult"@ { Some(ArtifactType::ToolResult) } else
    if s == "IntermediateOutput"@ { Some(ArtifactType::IntermediateOutput) } else
    if s == "Custom"@ { Some(ArtifactType::Custom) } else
    if s == "Code"@ { Some(ArtifactType::Code) } else
    if s == "Document"@ { Some(ArtifactType::Document) } else
    if s == "Data"@ { Some(ArtifactType::Data) } else
    if s == "Config"@ { Some(ArtifactType::Config) } else
    if s == "Log"@ { Some(ArtifactType::Log) } else
    if s == "Summary"@ { Some(ArtifactType::Summary) } else
    if s == "Decision"@ { Some(ArtifactType::Decision) } else
    if s == "Plan"@ { Some(ArtifactType::Plan) } else
    { None }
}

impl ArtifactType {
    /// The text this value is stored as.
    pub fn as_str(&self) -> (s: &'static str)
        ensures
            s@ == artifact_type_name(*self),
    {
        match self {
            ArtifactType::ErrorLog => "ErrorLog",
            ArtifactType::CodePatch => "CodePatch",
            ArtifactType::DesignDecision => "DesignDecision",
            ArtifactType::UserPreference => "UserPreference",
            ArtifactType::Fact => "Fact",
            ArtifactType::Constraint => "Constraint",
            ArtifactType::ToolResult => "ToolResult",
            ArtifactType::IntermediateOutput => "IntermediateOutput",
            ArtifactType::Custom => "Custom",
            ArtifactType::Code => "Code",
            ArtifactType::Document => "Document",
            ArtifactType::Data => "Data",
            ArtifactType::Config => "Config",
            ArtifactType::Log => "Log",
            ArtifactType::Summary => "Summary",
            ArtifactType::Decision => "Decision",
            ArtifactType::Plan => "Plan",
        }
    }

    /// The value a stored text names, if any.
    pub fn parse(s: &str) -> (r: Option<ArtifactType>)
        ensures
            r == artifact_type_name_parsed(s@),
    {
        if str_eq(s, "ErrorLog") {
            Some(ArtifactType::ErrorLog)
        } else if str_eq(s, "CodePatch") {
            Some(ArtifactType::CodePatch)
        } else if str_eq(s, "DesignDecision") {
            Some(ArtifactType::DesignDecision)
        } else if str_eq(s, "UserPreference") {
            Some(ArtifactType::UserPreference)
        } else if str_eq(s, "Fact") {
            Some(ArtifactType::Fact)
        } else if str_eq(s, "Constraint") {
            Some(ArtifactType::Constraint)
        } else if str_eq(s, "ToolResult") {
            Some(ArtifactType::ToolResult)
        } else if str_eq(s, "IntermediateOutput") {
            Some(ArtifactType::IntermediateOutput)
        } else if str_eq(s, "Custom") {
            Some(ArtifactType::Custom)
        } else if str_eq(s, "Code") {
            Some(ArtifactType::Code)
        } else if str_eq(s, "Document") {
            Some(ArtifactType::Document)
        } else if str_eq(s, "Data") {
            Some(ArtifactType::Data)
        } else if str_eq(s, "Config") {
            Some(ArtifactType::Config)
        } else if str_eq(s, "Log") {
            Some(ArtifactType::Log)
        } else if str_eq(s, "Summary") {
            Some(ArtifactType::Summary)
        } else if str_eq(s, "Decision") {
            Some(ArtifactType::Decision)
        } else if str_eq(s, "Plan") {
            Some(ArtifactType::Plan)
        } else {
            None
        }
    }
}

/// Reading back the stored text of an artifact type gives the same value.
pub proof fn lemma_artifact_type_name_round_trip(v: ArtifactType)
    ensures
        artifact_type_name_parsed(artifact_type_name(v)) == Some(v),
{
    reveal_strlit("ErrorLog");
    reveal_strlit("CodePatch");
    reveal_strlit("DesignDecision");
    reveal_strlit("UserPreference");
    reveal_strlit("Fact");
    reveal_strlit("Constraint");
    reveal_strlit("ToolResult");
    reveal_strlit("IntermediateOutput");
    reveal_strlit("Custom");
    reveal_strlit("Code");
    reveal_strlit("Document");
    reveal_strlit("Data");
    reveal_strlit("Config");
    reveal_strlit("Log");
    reveal_strlit("Summary");
    reveal_strlit("Decision");
    reveal_strlit("Plan");
    match v {
        ArtifactType::ErrorLog => {},
        ArtifactType::CodePatch => {
            assert("CodePatch"@.len() == 9 && "ErrorLog"@.len() == 8);
            assert("CodePatch"@ != "ErrorLog"@);
        },
        ArtifactType::DesignDecision => {
            assert("DesignDecision"@.len() == 14 && "ErrorLog"@.len() == 8);
            assert("DesignDecision"@ != "ErrorLog"@);
            assert("DesignDecision"@.len() == 14 && "CodePatch"@.len() == 9);
            assert("DesignDecision"@ != "CodePatch"@);
        },
        ArtifactType::UserPreference => {
            assert("UserPreference"@.len() == 14 && "ErrorLog"@.len() == 8);
            assert("UserPreference"@ != "ErrorLog"@);
            assert("UserPreference"@.len() == 14 && "CodePatch"@.len() == 9);
            assert("UserPreference"@ != "CodePatch"@);
            assert("UserPreference"@[0] == 'U' && "DesignDecision"@[0] == 'D');
            assert("UserPreference"@ != "DesignDecision"@);
        },
        ArtifactType::Fact => {
            assert("Fact"@.len() == 4 && "ErrorLog"@.len() == 8);
            assert("Fact"@ != "ErrorLog"@);
            assert("Fact"@.len() == 4 && "CodePatch"@.len() == 9);
            assert("Fact"@ != "CodePatch"@);
            assert("Fact"@.len() == 4 && "DesignDecision"@.len() == 14);
            assert("Fact"@ != "DesignDecision"@);
            assert("Fact"@.len() == 4 && "UserPreference"@.len() == 14);
            assert("Fact"@ != "UserPreference"@);
        },
        ArtifactType::Constraint => {
            assert("Constraint"@.len() == 10 && "ErrorLog"@.len() == 8);
            assert("Constraint"@ != "ErrorLog"@);
            assert("Constraint"@.len() == 10 && "CodePatch"@.len() == 9);
            assert("Constraint"@ != "CodePatch"@);
            assert("Constraint"@.len() == 10 && "DesignDecision"@.len() == 14);
            assert("Constraint"@ != "DesignDecision"@);
            assert("Constraint"@.len() == 10 && "UserPreference"@.len() == 14);
            assert("Constraint"@ != "UserPreference"@);
            assert("Constraint"@.len() == 10 && "Fact"@.len() == 4);
            assert("Constraint"@ != "Fact"@);
        },
        ArtifactType::ToolResult => {
            assert("ToolResult"@.len() == 10 && "ErrorLog"@.len() == 8);
            assert("ToolResult"@ != "ErrorLog"@);
            assert("ToolResult"@.len() == 10 && "CodePatch"@.len() == 9);
            assert("ToolResult"@ != "CodePatch"@);
            assert("ToolResult"@.len() == 10 && "DesignDecision"@.len() == 14);
            assert("ToolResult"@ != "DesignDecision"@);
            assert("ToolResult"@.len() == 10 && "UserPreference"@.len() == 14);
            assert("ToolResult"@ != "UserPreference"@);
            assert("ToolResult"@.len() == 10 && "Fact"@.len() == 4);
            assert("ToolResult"@ != "Fact"@);
            assert("ToolResult"@[0] == 'T' && "Constraint"@[0] == 'C');
            assert("ToolResult"@ != "Constraint"@);
        },
        ArtifactType::IntermediateOutput => {
            assert("IntermediateOutput"@.len() == 18 && "ErrorLog"@.len() == 8);
            assert("IntermediateOutput"@ != "ErrorLog"@);
            assert("IntermediateOutput"@.len() == 18 && "CodePatch"@.len() == 9);
            assert("IntermediateOutput"@ != "CodePatch"@);
            assert("IntermediateOutput"@.len() == 18 && "DesignDecision"@.len() == 14);
            assert("IntermediateOutput"@ != "DesignDecision"@);
            assert("IntermediateOutput"@.len() == 18 && "UserPreference"@.len() == 14);
            assert("IntermediateOutput"@ != "UserPreference"@);
            assert("IntermediateOutput"@.len() == 18 && "Fact"@.len() == 4);
            assert("IntermediateOutput"@ != "Fact"@);
            assert("IntermediateOutput"@.len() == 18 && "Constraint"@.len() == 10);
            assert("IntermediateOutput"@ != "Constraint"@);
            assert("IntermediateOutput"@.len() == 18 && "ToolResult"@.len() == 10);
            assert("IntermediateOutput"@ != "ToolResult"@);
        },
        ArtifactType::Custom => {
            assert("Custom"@.len() == 6 && "ErrorLog"@.len() == 8);
            assert("Custom"@ != "ErrorLog"@);
            assert("Custom"@.len() == 6 && "CodePatch"@.len() == 9);
            assert("Custom"@ != "CodePatch"@);
            assert("Custom"@.len() == 6 && "DesignDecision"@.len() == 14);
            assert("Custom"@ != "DesignDecision"@);
            assert("Custom"@.len() == 6 && "UserPreference"@.len() == 14);
            assert("Custom"@ != "UserPreference"@);
            assert("Custom"@.len() == 6 && "Fact"@.len() == 4);
            assert("Custom"@ != "Fact"@);
            assert("Custom"@.len() == 6 && "Constraint"@.len() == 10);
            assert("Custom"@ != "Constraint"@);
            assert("Custom"@.len() == 6 && "ToolResult"@.len() == 10);
            assert("Custom"@ != "ToolResult"@);
            assert("Custom"@.len() == 6 && "IntermediateOutput"@.len() == 18);
            assert("Custom"@ != "IntermediateOutput"@);
        },
        ArtifactType::Code => {
            assert("Code"@.len() == 4 && "ErrorLog"@.len() == 8);
            assert("Code"@ != "ErrorLog"@);
            assert("Code"@.len() == 4 && "CodePatch"@.len() == 9);
            assert("Code"@ != "CodePatch"@);
            assert("Code"@.len() == 4 && "DesignDecision"@.len() == 14);
            assert("Code"@ != "DesignDecision"@);
            assert("Code"@.len() == 4 && "UserPreference"@.len() == 14);
            assert("Code"@ != "UserPreference"@);
            assert("Code"@[0] == 'C' && "Fact"@[0] == 'F');
            assert("Code"@ != "Fact"@);
            assert("Code"@.len() == 4 && "Constraint"@.len() == 10);
            assert("Code"@ != "Constraint"@);
            assert("Code"@.len() == 4 && "ToolResult"@.len() == 10);
            assert("Code"@ != "ToolResult"@);
            assert("Code"@.len() == 4 && "IntermediateOutput"@.len() == 18);
            assert("Code"@ != "IntermediateOutput"@);
            assert("Code"@.len() == 4 && "Custom"@.len() == 6);
            assert("Code"@ != "Custom"@);
        },
        ArtifactType::Document => {
            assert("Document"@[0] == 'D' && "ErrorLog"@[0] == 'E');
            assert("Document"@ != "ErrorLog"@);
            assert("Document"@.len() == 8 && "CodePatch"@.len() == 9);
            assert("Document"@ != "CodePatch"@);
            assert("Document"@.len() == 8 && "DesignDecision"@.len() == 14);
            assert("Document"@ != "DesignDecision"@);
            assert("Document"@.len() == 8 && "UserPreference"@.len() == 14);
            assert("Document"@ != "UserPreference"@);
            assert("Document"@.len() == 8 && "Fact"@.len() == 4);
            assert("Document"@ != "Fact"@);
            assert("Document"@.len() == 8 && "Constraint"@.len() == 10);
            assert("Document"@ != "Constraint"@);
            assert("Document"@.len() == 8 && "ToolResult"@.len() == 10);
            assert("Document"@ != "ToolResult"@);
            assert("Document"@.len() == 8 && "IntermediateOutput"@.len() == 18);
            assert("Document"@ != "IntermediateOutput"@);
            assert("Document"@.len() == 8 && "Custom"@.len() == 6);
            assert("Document"@ != "Custom"@);
            assert("Document"@.len() == 8 && "Code"@.len() == 4);
            assert("Document"@ != "Code"@);
        },
        ArtifactType::Data => {
            assert("Data"@.len() == 4 && "ErrorLog"@.len() == 8);
            assert("Data"@ != "ErrorLog"@);
            assert("Data"@.len() == 4 && "CodePatch"@.len() == 9);
            assert("Data"@ != "CodePatch"@);
            assert("Data"@.len() == 4 && "DesignDecision"@.len() == 14);
            assert("Data"@ != "DesignDecision"@);
            assert("Data"@.len() == 4 && "UserPreference"@.len() == 14);
            assert("Data"@ != "UserPreference"@);
            assert("Data"@[0] == 'D' && "Fact"@[0] == 'F');
            assert("Data"@ != "Fact"@);
            assert("Data"@.len() == 4 && "Constraint"@.len() == 10);
            assert("Data"@ != "Constraint"@);
            assert("Data"@.len() == 4 && "ToolResult"@.len() == 10);
            assert("Data"@ != "ToolResult"@);
            assert("Data"@.len() == 4 && "IntermediateOutput"@.len() == 18);
            assert("Data"@ != "IntermediateOutput"@);
            assert("Data"@.len() == 4 && "Custom"@.len() == 6);
            assert("Data"@ != "Custom"@);
            assert("Data"@[0] == 'D' && "Code"@[0] == 'C');
            assert("Data"@ != "Code"@);
            assert("Data"@.len() == 4 && "Document"@.len() == 8);
            assert("Data"@ != "Document"@);
        },
        ArtifactType::Config => {
            assert("Config"@.len() == 6 && "ErrorLog"@.len() == 8);
            assert("Config"@ != "ErrorLog"@);
            assert("Config"@.len() == 6 && "CodePatch"@.len() == 9);
            assert("Config"@ != "CodePatch"@);
            assert("Config"@.len() == 6 && "DesignDecision"@.len() == 14);
            assert("Config"@ != "DesignDecision"@);
            assert("Config"@.len() == 6 && "UserPreference"@.len() == 14);
            assert("Config"@ != "UserPreference"@);
            assert("Config"@.len() == 6 && "Fact"@.len() == 4);
            assert("Config"@ != "Fact"@);
            assert("Config"@.len() == 6 && "Constraint"@.len() == 10);
            assert("Config"@ != "Constraint"@);
            assert("Config"@.len() == 6 && "ToolResult"@.len() == 10);
            assert("Config"@ != "ToolResult"@);
            assert("Config"@.len() == 6 && "IntermediateOutput"@.len() == 18);
            assert("Config"@ != "IntermediateOutput"@);
            assert("Config"@[1] == 'o' && "Custom"@[1] == 'u');
            assert("Config"@ != "Custom"@);
            assert("Config"@.len() == 6 && "Code"@.len() == 4);
            assert("Config"@ != "Code"@);
            assert("Config"@.len() == 6 && "Document"@.len() == 8);
            assert("Config"@ != "Document"@);
            assert("Config"@.len() == 6 && "Data"@.len() == 4);
            assert("Config"@ != "Data"@);
        },
        ArtifactType::Log => {
            assert("Log"@.len() == 3 && "ErrorLog"@.len() == 8);
            assert("Log"@ != "ErrorLog"@);
            assert("Log"@.len() == 3 && "CodePatch"@.len() == 9);
            assert("Log"@ != "CodePatch"@);
            assert("Log"@.len() == 3 && "DesignDecision"@.len() == 14);
            assert("Log"@ != "DesignDecision"@);
            assert("Log"@.len() == 3 && "UserPreference"@.len() == 14);
            assert("Log"@ != "UserPreference"@);
            assert("Log"@.len() == 3 && "Fact"@.len() == 4);
            assert("Log"@ != "Fact"@);
            assert("Log"@.len() == 3 && "Constraint"@.len() == 10);
            assert("Log"@ != "Constraint"@);
            assert("Log"@.len() == 3 && "ToolResult"@.len() == 10);
            assert("Log"@ != "ToolResult"@);
            assert("Log"@.len() == 3 && "IntermediateOutput"@.len() == 18);
            assert("Log"@ != "IntermediateOutput"@);
            assert("Log"@.len() == 3 && "Custom"@.len() == 6);
            assert("Log"@ != "Custom"@);
            assert("Log"@.len() == 3 && "Code"@.len() == 4);
            assert("Log"@ != "Code"@);
            assert("Log"@.len() == 3 && "Document"@.len() == 8);
            assert("Log"@ != "Document"@);
            assert("Log"@.len() == 3 && "Data"@.len() == 4);
            assert("Log"@ != "Data"@);
            assert("Log"@.len() == 3 && "Config"@.len() == 6);
            assert("Log"@ != "Config"@);
        },
        ArtifactType::Summary => {
            assert("Summary"@.len() == 7 && "ErrorLog"@.len() == 8);
            assert("Summary"@ != "ErrorLog"@);
            assert("Summary"@.len() == 7 && "CodePatch"@.len() == 9);
            assert("Summary"@ != "CodePatch"@);
            assert("Summary"@.len() == 7 && "DesignDecision"@.len() == 14);
            assert("Summary"@ != "DesignDecision"@);
            assert("Summary"@.len() == 7 && "UserPreference"@.len() == 14);
            assert("Summary"@ != "UserPreference"@);
            assert("Summary"@.len() == 7 && "Fact"@.len() == 4);
            assert("Summary"@ != "Fact"@);
            assert("Summary"@.len() == 7 && "Constraint"@.len() == 10);
            assert("Summary"@ != "Constraint"@);
            assert("Summary"@.len() == 7 && "ToolResult"@.len() == 10);
            assert("Summary"@ != "ToolResult"@);
            assert("Summary"@.len() == 7 && "IntermediateOutput"@.len() == 18);
            assert("Summary"@ != "IntermediateOutput"@);
            assert("Summary"@.len() == 7 && "Custom"@.len() == 6);
            assert("Summary"@ != "Custom"@);
            assert("Summary"@.len() == 7 && "Code"@.len() == 4);
            assert("Summary"@ != "Code"@);
            assert("Summary"@.len() == 7 && "Document"@.len() == 8);
            assert("Summary"@ != "Document"@);
            assert("Summary"@.len() == 7 && "Data"@.len() == 4);
            assert("Summary"@ != "Data"@);
            assert("Summary"@.len() == 7 && "Config"@.len() == 6);
            assert("Summary"@ != "Config"@);
            assert("Summary"@.len() == 7 && "Log"@.len() == 3);
            assert("Summary"@ != "Log"@);
        },
        ArtifactType::Decision => {
            assert("Decision"@[0] == 'D' && "ErrorLog"@[0] == 'E');
            assert("Decision"@ != "ErrorLog"@);
            assert("Decision"@.len() == 8 && "CodePatch"@.len() == 9);
            assert("Decision"@ != "CodePatch"@);
            assert("Decision"@.len() == 8 && "DesignDecision"@.len() == 14);
            assert("Decision"@ != "DesignDecision"@);
            assert("Decision"@.len() == 8 && "UserPreference"@.len() == 14);
            assert("Decision"@ != "UserPreference"@);
            assert("Decision"@.len() == 8 && "Fact"@.len() == 4);
            assert("Decision"@ != "Fact"@);
            assert("Decision"@.len() == 8 && "Constraint"@.len() == 10);
            assert("Decision"@ != "Constraint"@);
            assert("Decision"@.len() == 8 && "ToolResult"@.len() == 10);
            assert("Decision"@ != "ToolResult"@);
            assert("Decision"@.len() == 8 && "IntermediateOutput"@.len() == 18);
            assert("Decision"@ != "IntermediateOutput"@);
            assert("Decision"@.len() == 8 && "Custom"@.len() == 6);
            assert("Decision"@ != "Custom"@);
            assert("Decision"@.len() == 8 && "Code"@.len() == 4);
            assert("Decision"@ != "Code"@);
            assert("Decision"@[1] == 'e' && "Document"@[1] == 'o');
            assert("Decision"@ != "Document"@);
            assert("Decision"@.len() == 8 && "Data"@.len() == 4);
            assert("Decision"@ != "Data"@);
            assert("Decision"@.len() == 8 && "Config"@.len() == 6);
            assert("Decision"@ != "Config"@);
            assert("Decision"@.len() == 8 && "Log"@.len() == 3);
            assert("Decision"@ != "Log"@);
            assert("Decision"@.len() == 8 && "Summary"@.len() == 7);
            assert("Decision"@ != "Summary"@);
        },
        ArtifactType::Plan => {
            assert("Plan"@.len() == 4 && "ErrorLog"@.len() == 8);
            assert("Plan"@ != "ErrorLog"@);
            assert("Plan"@.len() == 4 && "CodePatch"@.len() == 9);
            assert("Plan"@ != "CodePatch"@);
            assert("Plan"@.len() == 4 && "DesignDecision"@.len() == 14);
            assert("Plan"@ != "DesignDecision"@);
            assert("Plan"@.len() == 4 && "UserPreference"@.len() == 14);
            assert("Plan"@ != "UserPreference"@);
            assert("Plan"@[0] == 'P' && "Fact"@[0] == 'F');
            assert("Plan"@ != "Fact"@);
            assert("Plan"@.len() == 4 && "Constraint"@.len() == 10);
            assert("Plan"@ != "Constraint"@);
            assert("Plan"@.len() == 4 && "ToolResult"@.len() == 10);
            assert("Plan"@ != "ToolResult"@);
            assert("Plan"@.len() == 4 && "IntermediateOutput"@.len() == 18);
            assert("Plan"@ != "IntermediateOutput"@);
            assert("Plan"@.len() == 4 && "Custom"@.len() == 6);
            assert("Plan"@ != "Custom"@);
            assert("Plan"@[0] == 'P' && "Code"@[0] == 'C');
            assert("Plan"@ != "Code"@);
            assert("Plan"@.len() == 4 && "Document"@.len() == 8);
            assert("Plan"@ != "Document"@);
            assert("Plan"@[0] == 'P' && "Data"@[0] == 'D');
            assert("Plan"@ != "Data"@);
            assert("Plan"@.len() == 4 && "Config"@.len() == 6);
            assert("Plan"@ != "Config"@);
            assert("Plan"@.len() == 4 && "Log"@.len() == 3);
            assert("Plan"@ != "Log"@);
            assert("Plan"@.len() == 4 && "Summary"@.len() == 7);
            assert("Plan"@ != "Summary"@);
            assert("Plan"@.len() == 4 && "Decision"@.len() == 8);
            assert("Plan"@ != "Decision"@);
        },
    }
}

/// The type of a note.
#[derive(Debug, Clone, Copy, PartialEq, Eq, Structural)]
pub enum NoteType {
    Convention,
    Strategy,
    Gotcha,
    Fact,
    Preference,
    Relationship,
    Procedure,
    Meta,
}

/// The text a note type is stored as.
pub open spec fn note_type_name(v: NoteType) -> Seq<char> {
    match v {
        NoteType::Convention => "Convention"@,
        NoteType::Strategy => "Strategy"@,
        NoteType::Gotcha => "Gotcha"@,
        NoteType::Fact => "Fact"@,
        NoteType::Preference => "Preference"@,
        NoteType::Relationship => "Relationship"@,
        NoteType::Procedure => "Procedure"@,
        NoteType::Meta => "Meta"@,
    }
}

/// The note type a stored text names, if any.
pub open spec fn note_type_name_parsed(s: Seq<char>) -> Option<NoteType> {
    if s == "Convention"@ { Some(NoteType::Convention) } else
    if s == "Strategy"@ { Some(NoteType::Strategy) } else
    if s == "Gotcha"@ { Some(NoteType::Gotcha) } else
    if s == "Fact"@ { Some(NoteType::Fact) } else
    if s == "Preference"@ { Some(NoteType::Preference) } else
    if s == "Relationship"@ { Some(NoteType::Relationship) } else
    if s == "Procedure"@ { Some(NoteType::Procedure) } else
    if s == "Meta"@ { Some(NoteType::Meta) } else
    { None }
}

impl NoteType {
    /// The text this value is stored as.
    pub fn as_str(&self) -> (s: &'static str)
        ensures
            s@ == note_type_name(*self),
    {
        match self {
            NoteType::Convention => "Convention",
            NoteType::Strategy => "Strategy",
            NoteType::Gotcha => "Gotcha",
            NoteType::Fact => "Fact",
            NoteType::Preference => "Preference",
            NoteType::Relationship => "Relationship",
            NoteType::Procedure => "Procedure",
            NoteType::Meta => "Meta",
        }
    }

    /// The value a stored text names, if any.
    pub fn parse(s: &str) -> (r: Option<NoteType>)
        ensures
            r == note_type_name_parsed(s@),
    {
        if str_eq(s, "Convention") {
            Some(NoteType::Convention)
        } else if str_eq(s, "Strategy") {
            Some(NoteType::Strategy)
        } else if str_eq(s, "Gotcha") {
            Some(NoteType::Gotcha)
        } else if str_eq(s, "Fact") {
            Some(NoteType::Fact)
        } else if str_eq(s, "Preference") {
            Some(NoteType::Preference)
        } else if str_eq(s, "Relationship") {
            Some(NoteType::Relationship)
        } else if str_eq(s, "Procedure") {
            Some(NoteType::Procedure)
        } else if str_eq(s, "Meta") {
            Some(NoteType::Meta)
        } else {
            None
        }
    }
}

/// Reading back the stored text of a note type gives the same value.
pub proof fn lemma_note_type_name_round_trip(v: NoteType)
    ensures
        note_type_name_parsed(note_type_name(v)) == Some(v),
{
    reveal_strlit("Convention");
    reveal_strlit("Strategy");
    reveal_strlit("Gotcha");
    reveal_strlit("Fact");
    reveal_strlit("Preference");
    reveal_strlit("Relationship");
    reveal_strlit("Procedure");
    reveal_strlit("Meta");
    match v {
        NoteType::Convention => {},
        NoteType::Strategy => {
            assert("Strategy"@.len() == 8 && "Convention"@.len() == 10);
            assert("Strategy"@ != "Convention"@);
        },
        NoteType::Gotcha => {
            assert("Gotcha"@.len() == 6 && "Convention"@.len() == 10);
            assert("Gotcha"@ != "Convention"@);
            assert("Gotcha"@.len() == 6 && "Strategy"@.len() == 8);
            assert("Gotcha"@ != "Strategy"@);
        },
        NoteType::Fact => {
            assert("Fact"@.len() == 4 && "Convention"@.len() == 10);
            assert("Fact"@ != "Convention"@);
            assert("Fact"@.len() == 4 && "Strategy"@.len() == 8);
            assert("Fact"@ != "Strategy"@);
            assert("Fact"@.len() == 4 && "Gotcha"@.len() == 6);
            assert("Fact"@ != "Gotcha"@);
        },
        NoteType::Preference => {
            assert("Preference"@[0] == 'P' && "Convention"@[0] == 'C');
            assert("Preference"@ != "Convention"@);
            assert("Preference"@.len() == 10 && "Strategy"@.len() == 8);
            assert("Preference"@ != "Strategy"@);
            assert("Preference"@.len() == 10 && "Gotcha"@.len() == 6);
            assert("Preference"@ != "Gotcha"@);
            assert("Preference"@.len() == 10 && "Fact"@.len() == 4);
            assert("Preference"@ != "Fact"@);
        },
        NoteType::Relationship => {
            assert("Relationship"@.len() == 12 && "Convention"@.len() == 10);
            assert("Relationship"@ != "Convention"@);
            assert("Relationship"@.len() == 12 && "Strategy"@.len() == 8);
            assert("Relationship"@ != "Strategy"@);
            assert("Relationship"@.len() == 12 && "Gotcha"@.len() == 6);
            assert("Relationship"@ != "Gotcha"@);
            assert("Relationship"@.len() == 12 && "Fact"@.len() == 4);
            assert("Relationship"@ != "Fact"@);
            assert("Relationship"@.len() == 12 && "Preference"@.len() == 10);
            assert("Relationship"@ != "Preference"@);
        },
        NoteType::Procedure => {
            assert("Procedure"@.len() == 9 && "Convention"@.len() == 10);
            assert("Procedure"@ != "Convention"@);
            assert("Procedure"@.len() == 9 && "Strategy"@.len() == 8);
            assert("Procedure"@ != "Strategy"@);
            assert("Procedure"@.len() == 9 && "Gotcha"@.len() == 6);
            assert("Procedure"@ != "Gotcha"@);
            assert("Procedure"@.len() == 9 && "Fact"@.len() == 4);
            assert("Procedure"@ != "Fact"@);
            assert("Procedure"@.len() == 9 && "Preference"@.len() == 10);
            assert("Procedure"@ != "Preference"@);
            assert("Procedure"@.len() == 9 && "Relationship"@.len() == 12);
            assert("Procedure"@ != "Relationship"@);
        },
        NoteType::Meta => {
            assert("Meta"@.len() == 4 && "Convention"@.len() == 10);
            assert("Meta"@ != "Convention"@);
            assert("Meta"@.len() == 4 && "Strategy"@.len() == 8);
            assert("Meta"@ != "Strategy"@);
            assert("Meta"@.len() == 4 && "Gotcha"@.len() == 6);
            assert("Meta"@ != "Gotcha"@);
            assert("Meta"@[0] == 'M' && "Fact"@[0] == 'F');
            assert("Meta"@ != "Fact"@);
            assert("Meta"@.len() == 4 && "Preference"@.len() == 10);
            assert("Meta"@ != "Preference"@);
            assert("Meta"@.len() == 4 && "Relationship"@.len() == 12);
            assert("Meta"@ != "Relationship"@);
            assert("Meta"@.len() == 4 && "Procedure"@.len() == 9);
            assert("Meta"@ != "Procedure"@);
        },
    }
}


/// How long a piece of memory lives.
#[derive(Debug, Clone, Copy, PartialEq, Eq, Structural)]
pub enum Ttl {
    Persistent,
    Session,
    Scope,
    Ephemeral,
    ShortTerm,
    MediumTerm,
    LongTerm,
    Permanent,
    /// A lifetime of this many milliseconds.
    Duration(i64),
}

/// The decimal text of an integer, with a `-` before a negative one.
pub open spec fn signed_decimal(n: int) -> Seq<char> {
    if n < 0 { "-"@ + decimal_text((-n) as nat) } else { decimal_text(n as nat) }
}

/// The text a lifetime is stored as: its name, or `duration_` and the
/// milliseconds.
pub open spec fn ttl_text(t: Ttl) -> Seq<char> {
    match t {
        Ttl::Persistent => "persistent"@,
        Ttl::Session => "session"@,
        Ttl::Scope => "scope"@,
        Ttl::Ephemeral => "ephemeral"@,
        Ttl::ShortTerm => "short_term"@,
        Ttl::MediumTerm => "medium_term"@,
        Ttl::LongTerm => "long_term"@,
        Ttl::Permanent => "permanent"@,
        Ttl::Duration(ms) => "duration_"@ + signed_decimal(ms as int),
    }
}

/// The text with every leading repetition of `p` removed.
pub open spec fn strip_all(s: Seq<char>, p: Seq<char>) -> Seq<char>
    decreases s.len(),
{
    if p.len() > 0 && has_prefix(s, p) { strip_all(s.skip(p.len() as int), p) } else { s }
}

/// What reading a stored lifetime gives: the lifetime, or the message of
/// the error.
pub open spec fn parsed_ttl(s: Seq<char>) -> Result<Ttl, Seq<char>> {
    if s == "persistent"@ { Ok(Ttl::Persistent) } else
    if s == "session"@ { Ok(Ttl::Session) } else
    if s == "scope"@ { Ok(Ttl::Scope) } else
    if s == "ephemeral"@ { Ok(Ttl::Ephemeral) } else
    if s == "short_term"@ { Ok(Ttl::ShortTerm) } else
    if s == "medium_term"@ { Ok(Ttl::MediumTerm) } else
    if s == "long_term"@ { Ok(Ttl::LongTerm) } else
    if s == "permanent"@ { Ok(Ttl::Permanent) } else
    if has_prefix(s, "duration_"@) {
        match parsed_i64(strip_all(s, "duration_"@)) {
            Some(ms) => Ok(Ttl::Duration(ms as i64)),
            None => Err("Invalid TTL duration: "@ + s),
        }
    } else {
        Err("Invalid TTL: "@ + s)
    }
}

/// The text a lifetime is stored as.
pub fn ttl_to_string(ttl: &Ttl) -> (s: String)
    ensures
        s@ == ttl_text(*ttl),
{
    match ttl {
        Ttl::Persistent => owned("persistent"),
        Ttl::Session => owned("session"),
        Ttl::Scope => owned("scope"),
        Ttl::Ephemeral => owned("ephemeral"),
        Ttl::ShortTerm => owned("short_term"),
        Ttl::MediumTerm => owned("medium_term"),
        Ttl::LongTerm => owned("long_term"),
        Ttl::Permanent => owned("permanent"),
        Ttl::Duration(ms) => {
            let mut s = owned("duration_");
            if *ms < 0 {
                push_str(&mut s, "-");
                let magnitude = (0i128 - *ms as i128) as u64;
                let digits = u64_to_string(magnitude);
                push_str(&mut s, digits.as_str());
            } else {
                let digits = u64_to_string(*ms as u64);
                push_str(&mut s, digits.as_str());
            }
            s
        },
    }
}

/// Read a stored lifetime.
pub fn parse_ttl(s: &str) -> (r: ApiResult<Ttl>)
    ensures
        match parsed_ttl(s@) {
            Ok(t) => r == Ok::<Ttl, ApiError>(t),
            Err(m) => r matches Err(e) && plain_error(e, ErrorCode::InternalError, m),
        },
{
    if str_eq(s, "persistent") {
        Ok(Ttl::Persistent)
    } else if str_eq(s, "session") {
        Ok(Ttl::Session)
    } else if str_eq(s, "scope") {
        Ok(Ttl::Scope)
    } else if str_eq(s, "ephemeral") {
        Ok(Ttl::Ephemeral)
    } else if str_eq(s, "short_term") {
        Ok(Ttl::ShortTerm)
    } else if str_eq(s, "medium_term") {
        Ok(Ttl::MediumTerm)
    } else if str_eq(s, "long_term") {
        Ok(Ttl::LongTerm)
    } else if str_eq(s, "permanent") {
        Ok(Ttl::Permanent)
    } else if starts_with(s, "duration_") {
        let mut rest = owned(s);
        while starts_with(rest.as_str(), "duration_")
            invariant
                strip_all(s@, "duration_"@) == strip_all(rest@, "duration_"@),
            decreases rest@.len(),
        {
            proof { reveal_strlit("duration_"); }
            rest = crate::text::suffix_from(rest.as_str(), 9);
        }
        proof { reveal_strlit("duration_"); }
        match parse_i64(rest.as_str()) {
            Some(ms) => Ok(Ttl::Duration(ms)),
            None => {
                let mut m = owned("Invalid TTL duration: ");
                push_str(&mut m, s);
                Err(ApiError::internal_error(m.as_str()))
            },
        }
    } else {
        let mut m = owned("Invalid TTL: ");
        push_str(&mut m, s);
        Err(ApiError::internal_error(m.as_str()))
    }
}

/// The signed decimal text of an `i64` reads back as that `i64`.
pub proof fn lemma_signed_decimal_parses(ms: i64)
    ensures
        parsed_i64(signed_decimal(ms as int)) == Some(ms as int),
        signed_decimal(ms as int).len() > 0,
        signed_decimal(ms as int)[0] != 'd',
{
    reveal_strlit("-");
    if ms < 0 {
        lemma_decimal_text_value((-ms) as nat);
        let d = decimal_text((-ms) as nat);
        assert(("-"@ + d).drop_first() =~= d);
        assert(("-"@ + d)[0] == '-');
    } else {
        lemma_decimal_text_value(ms as nat);
        assert(is_digit(decimal_text(ms as nat)[0]));
    }
}

/// Reading back the stored text of a lifetime gives the same lifetime.
pub proof fn lemma_ttl_round_trip(t: Ttl)
    ensures
        parsed_ttl(ttl_text(t)) == Ok::<Ttl, Seq<char>>(t),
{
    reveal_strlit("persistent");
    reveal_strlit("session");
    reveal_strlit("scope");
    reveal_strlit("ephemeral");
    reveal_strlit("short_term");
    reveal_strlit("medium_term");
    reveal_strlit("long_term");
    reveal_strlit("permanent");
    reveal_strlit("duration_");
    match t {
        Ttl::Persistent => {

        },
        Ttl::Session => {
            assert("session"@.len() == 7 && "persistent"@.len() == 10);
            assert("session"@ != "persistent"@);
        },
        Ttl::Scope => {
            assert("scope"@.len() == 5 && "persistent"@.len() == 10);
            assert("scope"@ != "persistent"@);
            assert("scope"@.len() == 5 && "session"@.len() == 7);
            assert("scope"@ != "session"@);
        },
        Ttl::Ephemeral => {
            assert("ephemeral"@.len() == 9 && "persistent"@.len() == 10);
            assert("ephemeral"@ != "persistent"@);
            assert("ephemeral"@.len() == 9 && "session"@.len() == 7);
            assert("ephemeral"@ != "session"@);
            assert("ephemeral"@.len() == 9 && "scope"@.len() == 5);
            assert("ephemeral"@ != "scope"@);
        },
        Ttl::ShortTerm => {
            assert("short_term"@[0] == 's' && "persistent"@[0] == 'p');
            assert("short_term"@ != "persistent"@);
            assert("short_term"@.len() == 10 && "session"@.len() == 7);
            assert("short_term"@ != "session"@);
            assert("short_term"@.len() == 10 && "scope"@.len() == 5);
            assert("short_term"@ != "scope"@);
            assert("short_term"@.len() == 10 && "ephemeral"@.len() == 9);
            assert("short_term"@ != "ephemeral"@);
        },
        Ttl::MediumTerm => {
            assert("medium_term"@.len() == 11 && "persistent"@.len() == 10);
            assert("medium_term"@ != "persistent"@);
            assert("medium_term"@.len() == 11 && "session"@.len() == 7);
            assert("medium_term"@ != "session"@);
            assert("medium_term"@.len() == 11 && "scope"@.len() == 5);
            assert("medium_term"@ != "scope"@);
            assert("medium_term"@.len() == 11 && "ephemeral"@.len() == 9);
            assert("medium_term"@ != "ephemeral"@);
            assert("medium_term"@.len() == 11 && "short_term"@.len() == 10);
            assert("medium_term"@ != "short_term"@);
        },
        Ttl::LongTerm => {
            assert("long_term"@.len() == 9 && "persistent"@.len() == 10);
            assert("long_term"@ != "persistent"@);
            assert("long_term"@.len() == 9 && "session"@.len() == 7);
            assert("long_term"@ != "session"@);
            assert("long_term"@.len() == 9 && "scope"@.len() == 5);
            assert("long_term"@ != "scope"@);
            assert("long_term"@[0] == 'l' && "ephemeral"@[0] == 'e');
            assert("long_term"@ != "ephemeral"@);
            assert("long_term"@.len() == 9 && "short_term"@.len() == 10);
            assert("long_term"@ != "short_term"@);
            assert("long_term"@.len() == 9 && "medium_term"@.len() == 11);
            assert("long_term"@ != "medium_term"@);
        },
        Ttl::Permanent => {
            assert("permanent"@.len() == 9 && "persistent"@.len() == 10);
            assert("permanent"@ != "persistent"@);
            assert("permanent"@.len() == 9 && "session"@.len() == 7);
            assert("permanent"@ != "session"@);
            assert("permanent"@.len() == 9 && "scope"@.len() == 5);
            assert("permanent"@ != "scope"@);
            assert("permanent"@[0] == 'p' && "ephemeral"@[0] == 'e');
            assert("permanent"@ != "ephemeral"@);
            assert("permanent"@.len() == 9 && "short_term"@.len() == 10);
            assert("permanent"@ != "short_term"@);
            assert("permanent"@.len() == 9 && "medium_term"@.len() == 11);
            assert("permanent"@ != "medium_term"@);
            assert("permanent"@[0] == 'p' && "long_term"@[0] == 'l');
            assert("permanent"@ != "long_term"@);
        },
        Ttl::Duration(ms) => {
            lemma_signed_decimal_parses(ms);
            let x = signed_decimal(ms as int);
            let full = "duration_"@ + x;
            assert(full[0] == 'd');
            assert("persistent"@[0] == 'p');
            assert(ttl_text(t) != "persistent"@);
            assert("session"@[0] == 's');
            assert(ttl_text(t) != "session"@);
            assert("scope"@[0] == 's');
            assert(ttl_text(t) != "scope"@);
            assert("ephemeral"@[0] == 'e');
            assert(ttl_text(t) != "ephemeral"@);
            assert("short_term"@[0] == 's');
            assert(ttl_text(t) != "short_term"@);
            assert("medium_term"@[0] == 'm');
            assert(ttl_text(t) != "medium_term"@);
            assert("long_term"@[0] == 'l');
            assert(ttl_text(t) != "long_term"@);
            assert("permanent"@[0] == 'p');
            assert(ttl_text(t) != "permanent"@);
            assert(full.subrange(0, 9) =~= "duration_"@);
            assert(full.skip(9) =~= x);
            assert(x[0] != "duration_"@[0]);
            assert(!has_prefix(x, "duration_"@));
            assert("duration_"@.len() == 9);
            assert(has_prefix(full, "duration_"@));
            assert(strip_all(x, "duration_"@) == x);
            assert(strip_all(full, "duration_"@) == strip_all(full.skip(9), "duration_"@));
            assert(strip_all(full, "duration_"@) == x);
        },
    }
}


impl TrajectoryStatus {
    /// Read a stored value; an unknown text is an internal error.
    pub fn from_stored(s: &str) -> (r: ApiResult<TrajectoryStatus>)
        ensures
            match trajectory_status_name_parsed(s@) {
                Some(v) => r == Ok::<TrajectoryStatus, ApiError>(v),
                None => r matches Err(e) && plain_error(e, ErrorCode::InternalError, "Invalid trajectory status: "@ + s@),
            },
    {
        match TrajectoryStatus::parse(s) {
            Some(v) => Ok(v),
            None => {
                let mut m = owned("Invalid trajectory status: ");
                push_str(&mut m, s);
                Err(ApiError::internal_error(m.as_str()))
            },
        }
    }
}

impl ArtifactType {
    /// Read a stored value; an unknown text is an internal error.
    pub fn from_stored(s: &str) -> (r: ApiResult<ArtifactType>)
        ensures
            match artifact_type_name_parsed(s@) {
                Some(v) => r == Ok::<ArtifactType, ApiError>(v),
                None => r matches Err(e) && plain_error(e, ErrorCode::InternalError, "Invalid artifact type: "@ + s@),
            },
    {
        match ArtifactType::parse(s) {
            Some(v) => Ok(v),
            None => {
                let mut m = owned("Invalid artifact type: ");
                push_str(&mut m, s);
                Err(ApiError::internal_error(m.as_str()))
            },
        }
    }
}

impl NoteType {
    /// Read a stored value; an unknown text is an internal error.
    pub fn from_stored(s: &str) -> (r: ApiResult<NoteType>)
        ensures
            match note_type_name_parsed(s@) {
                Some(v) => r == Ok::<NoteType, ApiError>(v),
                None => r matches Err(e) && plain_error(e, ErrorCode::InternalError, "Invalid note type: "@ + s@),
            },
    {
        match NoteType::parse(s) {
            Some(v) => Ok(v),
            None => {
                let mut m = owned("Invalid note type: ");
                push_str(&mut m, s);
                Err(ApiError::internal_error(m.as_str()))
            },
        }
    }
}

impl TurnRole {
    /// Read a stored value; an unknown text is an internal error.
    pub fn from_stored(s: &str) -> (r: ApiResult<TurnRole>)
        ensures
            match turn_role_name_parsed(s@) {
                Some(v) => r == Ok::<TurnRole, ApiError>(v),
                None => r matches Err(e) && plain_error(e, ErrorCode::InternalError, "Invalid turn role: "@ + s@),
            },
    {
        match TurnRole::parse(s) {
            Some(v) => Ok(v),
            None => {
                let mut m = owned("Invalid turn role: ");
                push_str(&mut m, s);
                Err(ApiError::internal_error(m.as_str()))
            },
        }
    }
}

/// The outcome status a stored text names; an unknown or missing one is
/// taken as success.
pub fn outcome_status_or_success(s: Option<&str>) -> (r: OutcomeStatus)
    ensures
        r == match s {
            Some(t) => match outcome_status_name_parsed(t@) {
                Some(v) => v,
                None => OutcomeStatus::Success,
            },
            None => OutcomeStatus::Success,
        },
{
    match s {
        Some(t) => match OutcomeStatus::parse(t) {
            Some(v) => v,
            None => OutcomeStatus::Success,
        },
        None => OutcomeStatus::Success,
    }
}

/// The extraction method a stored text names; an unknown or missing one is
/// taken as explicit.
pub fn extraction_method_or_explicit(s: Option<&str>) -> (r: ExtractionMethod)
    ensures
        r == match s {
            Some(t) => match extraction_method_name_parsed(t@) {
                Some(v) => v,
                None => ExtractionMethod::Explicit,
            },
            None => ExtractionMethod::Explicit,
        },
{
    match s {
        Some(t) => match ExtractionMethod::parse(t) {
            Some(v) => v,
            None => ExtractionMethod::Explicit,
        },
        None => ExtractionMethod::Explicit,
    }
}

} // verus!
