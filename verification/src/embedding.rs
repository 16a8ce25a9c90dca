//! Embedding provider configuration.

use vstd::prelude::*;

verus! {

/// Embedding provider type.
#[derive(Debug, Clone, Copy, PartialEq, Eq, Structural)]
pub enum EmbeddingProviderType {
    /// Use a local llama.cpp server.
    LlamaCppServer,
    /// Use the mock provider (fixed vectors).
    Mock,
}

/// Embedding service configuration: a plain data container whose every
/// field is populated by the caller.
#[derive(Debug, Clone)]
pub struct EmbeddingConfig {
    /// Provider type.
    pub provider_type: EmbeddingProviderType,
    /// Service endpoint.
    pub endpoint: String,
    /// Model name.
    pub model: String,
    /// Vector dimension (for the mock provider).
    pub dimension: usize,
    /// API key for the embedding service.
    pub api_key: String,
}

impl EmbeddingConfig {
    /// Mock embedding configuration for tests.
    pub fn mock() -> (res: Self)
        ensures
            res.provider_type == EmbeddingProviderType::Mock,
            res.endpoint@ == "http://localhost:8080/mock-embedding"@,
            res.model@ == "mock-model-v1"@,
            res.dimension == 384,
            res.api_key@ == "mock-api-key"@,
    {
        EmbeddingConfig {
            provider_type: EmbeddingProviderType::Mock,
            endpoint: String::from_str("http://localhost:8080/mock-embedding"),
            model: String::from_str("mock-model-v1"),
            dimension: 384,
            api_key: String::from_str("mock-api-key"),
        }
    }

    /// Whether this configuration uses the mock provider.
    pub fn is_mock(&self) -> (res: bool)
        ensures
            res == (self.provider_type == EmbeddingProviderType::Mock),
    {
        self.provider_type == EmbeddingProviderType::Mock
    }

    /// Vector dimension.
    pub fn dimension(&self) -> (res: usize)
        ensures
            res == self.dimension,
    {
        self.dimension
    }
}

} // verus!
