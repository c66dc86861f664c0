//! The OpenAPI description of this service: a fixed document, built once,
//! covering every route and the envelope and echo schemas.

use vstd::prelude::*;

verus! {

/// Marker type for the service's API description.
pub struct ApiDoc;

/// The OpenAPI document, fixed at build time.
pub open spec fn openapi_document() -> Seq<char> {
    "{\"openapi\":\"3.0.3\",\"info\":{\"title\":\"Learn-Rust API\",\"description\":\"A simple Rust microservice for learning and demonstration\",\"version\":\"0.0.1\"},\"servers\":[{\"url\":\"http://localhost:8080\",\"description\":\"Local server\"}],\"paths\":{\"/\":{\"get\":{\"tags\":[\"info\"],\"summary\":\"API welcome and documentation\",\"responses\":{\"200\":{\"description\":\"Welcome message with API endpoints\",\"content\":{\"application/json\":{\"schema\":{\"$ref\":\"#/components/schemas/ApiResponse\"}}}}}}},\"/ping\":{\"get\":{\"tags\":[\"health\"],\"summary\":\"Simple ping-pong response\",\"responses\":{\"200\":{\"description\":\"Pong response\",\"content\":{\"text/plain\":{\"schema\":{\"type\":\"string\"}}}}}}},\"/healthz\":{\"get\":{\"tags\":[\"health\"],\"summary\":\"Health check endpoint\",\"responses\":{\"200\":{\"description\":\"Health status with system metrics\",\"content\":{\"application/json\":{\"schema\":{\"$ref\":\"#/components/schemas/ApiResponse\"}}}}}}},\"/info\":{\"get\":{\"tags\":[\"info\"],\"summary\":\"Application and system information\",\"responses\":{\"200\":{\"description\":\"Detailed system and application info\",\"content\":{\"application/json\":{\"schema\":{\"$ref\":\"#/components/schemas/ApiResponse\"}}}}}}},\"/version\":{\"get\":{\"tags\":[\"info\"],\"summary\":\"Application version information\",\"responses\":{\"200\":{\"description\":\"Application version information\",\"content\":{\"application/json\":{\"schema\":{\"$ref\":\"#/components/schemas/ApiResponse\"}}}}}}},\"/echo\":{\"post\":{\"tags\":[\"utility\"],\"summary\":\"Echo back the request body\",\"requestBody\":{\"required\":true,\"content\":{\"application/json\":{\"schema\":{\"$ref\":\"#/components/schemas/EchoRequest\"}}}},\"responses\":{\"200\":{\"description\":\"Echoed request data\",\"content\":{\"application/json\":{\"schema\":{\"$ref\":\"#/components/schemas/ApiResponse\"}}}},\"400\":{\"description\":\"Invalid request body\"}}}},\"/metrics\":{\"get\":{\"tags\":[\"info\"],\"summary\":\"Prometheus metrics endpoint\",\"responses\":{\"200\":{\"description\":\"Metrics in the Prometheus text exposition format\",\"content\":{\"text/plain\":{\"schema\":{\"type\":\"string\"}}}}}}},\"/openapi.json\":{\"get\":{\"tags\":[\"info\"],\"summary\":\"OpenAPI specification\",\"responses\":{\"200\":{\"description\":\"This document\",\"content\":{\"application/json\":{\"schema\":{\"type\":\"object\"}}}}}}}},\"components\":{\"schemas\":{\"ApiResponse\":{\"type\":\"object\",\"required\":[\"success\",\"timestamp\"],\"properties\":{\"success\":{\"type\":\"boolean\"},\"data\":{\"nullable\":true},\"error\":{\"type\":\"string\",\"nullable\":true},\"timestamp\":{\"type\":\"string\"}}},\"EchoRequest\":{\"type\":\"object\",\"required\":[\"message\"],\"properties\":{\"message\":{\"type\":\"string\"}}},\"EchoResponse\":{\"type\":\"object\",\"required\":[\"message\",\"received_at\"],\"properties\":{\"message\":{\"type\":\"string\"},\"received_at\":{\"type\":\"string\"}}}}},\"tags\":[{\"name\":\"health\",\"description\":\"Health check endpoints\"},{\"name\":\"info\",\"description\":\"Information endpoints\"},{\"name\":\"utility\",\"description\":\"Utility endpoints\"}]}"@
}

/// The OpenAPI route's body: exactly the fixed document.
pub fn get_openapi_json() -> (r: String)
    ensures
        r@ == openapi_document(),
{
    "{\"openapi\":\"3.0.3\",\"info\":{\"title\":\"Learn-Rust API\",\"description\":\"A simple Rust microservice for learning and demonstration\",\"version\":\"0.0.1\"},\"servers\":[{\"url\":\"http://localhost:8080\",\"description\":\"Local server\"}],\"paths\":{\"/\":{\"get\":{\"tags\":[\"info\"],\"summary\":\"API welcome and documentation\",\"responses\":{\"200\":{\"description\":\"Welcome message with API endpoints\",\"content\":{\"application/json\":{\"schema\":{\"$ref\":\"#/components/schemas/ApiResponse\"}}}}}}},\"/ping\":{\"get\":{\"tags\":[\"health\"],\"summary\":\"Simple ping-pong response\",\"responses\":{\"200\":{\"description\":\"Pong response\",\"content\":{\"text/plain\":{\"schema\":{\"type\":\"string\"}}}}}}},\"/healthz\":{\"get\":{\"tags\":[\"health\"],\"summary\":\"Health check endpoint\",\"responses\":{\"200\":{\"description\":\"Health status with system metrics\",\"content\":{\"application/json\":{\"schema\":{\"$ref\":\"#/components/schemas/ApiResponse\"}}}}}}},\"/info\":{\"get\":{\"tags\":[\"info\"],\"summary\":\"Application and system information\",\"responses\":{\"200\":{\"description\":\"Detailed system and application info\",\"content\":{\"application/json\":{\"schema\":{\"$ref\":\"#/components/schemas/ApiResponse\"}}}}}}},\"/version\":{\"get\":{\"tags\":[\"info\"],\"summary\":\"Application version information\",\"responses\":{\"200\":{\"description\":\"Application version information\",\"content\":{\"application/json\":{\"schema\":{\"$ref\":\"#/components/schemas/ApiResponse\"}}}}}}},\"/echo\":{\"post\":{\"tags\":[\"utility\"],\"summary\":\"Echo back the request body\",\"requestBody\":{\"required\":true,\"content\":{\"application/json\":{\"schema\":{\"$ref\":\"#/components/schemas/EchoRequest\"}}}},\"responses\":{\"200\":{\"description\":\"Echoed request data\",\"content\":{\"application/json\":{\"schema\":{\"$ref\":\"#/components/schemas/ApiResponse\"}}}},\"400\":{\"description\":\"Invalid request body\"}}}},\"/metrics\":{\"get\":{\"tags\":[\"info\"],\"summary\":\"Prometheus metrics endpoint\",\"responses\":{\"200\":{\"description\":\"Metrics in the Prometheus text exposition format\",\"content\":{\"text/plain\":{\"schema\":{\"type\":\"string\"}}}}}}},\"/openapi.json\":{\"get\":{\"tags\":[\"info\"],\"summary\":\"OpenAPI specification\",\"responses\":{\"200\":{\"description\":\"This document\",\"content\":{\"application/json\":{\"schema\":{\"type\":\"object\"}}}}}}}},\"components\":{\"schemas\":{\"ApiResponse\":{\"type\":\"object\",\"required\":[\"success\",\"timestamp\"],\"properties\":{\"success\":{\"type\":\"boolean\"},\"data\":{\"nullable\":true},\"error\":{\"type\":\"string\",\"nullable\":true},\"timestamp\":{\"type\":\"string\"}}},\"EchoRequest\":{\"type\":\"object\",\"required\":[\"message\"],\"properties\":{\"message\":{\"type\":\"string\"}}},\"EchoResponse\":{\"type\":\"object\",\"required\":[\"message\",\"received_at\"],\"properties\":{\"message\":{\"type\":\"string\"},\"received_at\":{\"type\":\"string\"}}}}},\"tags\":[{\"name\":\"health\",\"description\":\"Health check endpoints\"},{\"name\":\"info\",\"description\":\"Information endpoints\"},{\"name\":\"utility\",\"description\":\"Utility endpoints\"}]}".to_string()
}

} // verus!
