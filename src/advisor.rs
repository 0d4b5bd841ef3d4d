//! Records exchanged with the advisor service.
use vstd::prelude::*;

pub mod recommendation_properties;

use recommendation_properties::{Category, Impact, Risk};

verus! {

/// A JSON value of the service's payload, carried through unread.
#[verifier::external_type_specification]
#[verifier::external_body]
pub struct ExJsonValue(serde_json::Value);

/// The operation supported by Advisor.
#[derive(Clone, Debug, PartialEq)]
pub struct OperationDisplayInfo {
    /// The description of the operation.
    pub description: Option<String>,
    /// The action that users can perform, based on their permission level.
    pub operation: Option<String>,
    /// Service provider: Microsoft Advisor.
    pub provider: Option<String>,
    /// Resource on which the operation is performed.
    pub resource: Option<String>,
}

impl OperationDisplayInfo {
    /// A record with every field absent.
    pub fn new() -> (r: Self)
        ensures
            r.description is None,
            r.operation is None,
            r.provider is None,
            r.resource is None,
    {
        OperationDisplayInfo { description: None, operation: None, provider: None, resource: None }
    }
}

/// The operation supported by Advisor.
#[derive(Clone, Debug, PartialEq)]
pub struct OperationEntity {
    /// Operation name: {provider}/{resource}/{operation}.
    pub name: Option<String>,
    /// How the operation is displayed.
    pub display: Option<OperationDisplayInfo>,
}

impl OperationEntity {
    /// A record with every field absent.
    pub fn new() -> (r: Self)
        ensures
            r.name is None,
            r.display is None,
    {
        OperationEntity { name: None, display: None }
    }
}

/// The list of Advisor operations.
#[derive(Clone, Debug, PartialEq)]
pub struct OperationEntityListResult {
    /// The link used to get the next page of operations.
    pub next_link: Option<String>,
    /// The list of operations.
    pub value: Vec<OperationEntity>,
}

impl OperationEntityListResult {
    /// An empty page with no link to a next one.
    pub fn new() -> (r: Self)
        ensures
            r.next_link is None,
            r.value@.len() == 0,
    {
        OperationEntityListResult { next_link: None, value: Vec::new() }
    }
}

/// The properties of the recommendation.
#[derive(Clone, Debug, PartialEq)]
pub struct RecommendationProperties {
    /// The category of the recommendation.
    pub category: Option<Category>,
    /// The business impact of the recommendation.
    pub impact: Option<Impact>,
    /// The resource type identified by Advisor.
    pub impacted_field: Option<String>,
    /// The resource identified by Advisor.
    pub impacted_value: Option<String>,
    /// The most recent time that Advisor checked the validity of the recommendation.
    pub last_updated: Option<String>,
    /// The recommendation metadata.
    pub metadata: Option<serde_json::Value>,
    /// The recommendation-type GUID.
    pub recommendation_type_id: Option<String>,
    /// The potential risk of not implementing the recommendation.
    pub risk: Option<Risk>,
    /// A summary of the recommendation.
    pub short_description: Option<ShortDescription>,
}

impl RecommendationProperties {
    /// Properties with every field absent.
    pub fn new() -> (r: Self)
        ensures
            r.category is None,
            r.impact is None,
            r.impacted_field is None,
            r.impacted_value is None,
            r.last_updated is None,
            r.metadata is None,
            r.recommendation_type_id is None,
            r.risk is None,
            r.short_description is None,
    {
        RecommendationProperties {
            category: None,
            impact: None,
            impacted_field: None,
            impacted_value: None,
            last_updated: None,
            metadata: None,
            recommendation_type_id: None,
            risk: None,
            short_description: None,
        }
    }
}

/// An Azure resource.
#[derive(Clone, Debug, PartialEq)]
pub struct Resource {
    /// The resource ID.
    pub id: Option<String>,
    /// The name of the resource.
    pub name: Option<String>,
    /// The type of the resource.
    pub type_: Option<String>,
    /// The location of the resource.
    pub location: Option<String>,
    /// The tags of the resource.
    pub tags: Option<serde_json::Value>,
}

impl Resource {
    /// A resource with every field absent.
    pub fn new() -> (r: Self)
        ensures
            r.id is None,
            r.name is None,
            r.type_ is None,
            r.location is None,
            r.tags is None,
    {
        Resource { id: None, name: None, type_: None, location: None, tags: None }
    }
}

/// Advisor Recommendation.
#[derive(Clone, Debug, PartialEq)]
pub struct ResourceRecommendationBase {
    /// The fully qualified recommendation ID.
    pub id: Option<String>,
    /// The name of recommendation.
    pub name: Option<String>,
    /// The properties of the recommendation.
    pub properties: Option<RecommendationProperties>,
    /// The list of snoozed and dismissed rules for the recommendation.
    pub suppression_ids: Vec<String>,
    /// The recommendation type: Microsoft.Advisor/recommendations.
    pub type_: Option<String>,
}

impl ResourceRecommendationBase {
    /// A recommendation with every field absent and no suppression.
    pub fn new() -> (r: Self)
        ensures
            r.id is None,
            r.name is None,
            r.properties is None,
            r.suppression_ids@.len() == 0,
            r.type_ is None,
    {
        ResourceRecommendationBase {
            id: None,
            name: None,
            properties: None,
            suppression_ids: Vec::new(),
            type_: None,
        }
    }
}

/// The list of Advisor recommendations.
#[derive(Clone, Debug, PartialEq)]
pub struct ResourceRecommendationBaseListResult {
    /// The link used to get the next page of recommendations.
    pub next_link: Option<String>,
    /// The list of recommendations.
    pub value: Vec<ResourceRecommendationBase>,
}

impl ResourceRecommendationBaseListResult {
    /// An empty page with no link to a next one.
    pub fn new() -> (r: Self)
        ensures
            r.next_link is None,
            r.value@.len() == 0,
    {
        ResourceRecommendationBaseListResult { next_link: None, value: Vec::new() }
    }
}

/// A summary of the recommendation.
#[derive(Clone, Debug, PartialEq)]
pub struct ShortDescription {
    /// The issue or opportunity identified by the recommendation.
    pub problem: Option<String>,
    /// The remediation action suggested by the recommendation.
    pub solution: Option<String>,
}

impl ShortDescription {
    /// A summary with both fields absent.
    pub fn new() -> (r: Self)
        ensures
            r.problem is None,
            r.solution is None,
    {
        ShortDescription { problem: None, solution: None }
    }
}

/// The details of a snoozed or dismissed rule.
#[derive(Clone, Debug, PartialEq)]
pub struct SuppressionContract {
    /// The resource that the suppression is.
    pub resource: Resource,
    /// The GUID of the suppression.
    pub suppression_id: Option<String>,
    /// The duration for which the suppression is valid.
    pub ttl: Option<String>,
}

impl SuppressionContract {
    /// A suppression with every field absent.
    pub fn new() -> (r: Self)
        ensures
            r.resource.id is None,
            r.resource.name is None,
            r.resource.type_ is None,
            r.resource.location is None,
            r.resource.tags is None,
            r.suppression_id is None,
            r.ttl is None,
    {
        SuppressionContract { resource: Resource::new(), suppression_id: None, ttl: None }
    }
}

} // verus!
