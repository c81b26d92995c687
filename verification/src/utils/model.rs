//! The model providers that Code Buddy knows, and lookups among them.

use vstd::prelude::*;
use crate::text::{first_index, owned, push_str, views};

verus! {

/// A model provider.
pub struct Provider {
    pub name: String,
    pub display_name: String,
    pub base_url: String,
    pub api_key_env: String,
    pub default_model: String,
    pub free_models: Vec<String>,
    pub supports_streaming: bool,
}

/// The known providers.
pub struct MultiProvider {
    pub providers: Vec<Provider>,
}

/// Names of the known providers, in order.
pub open spec fn provider_names() -> Seq<Seq<char>> {
    seq![
        "anthropic"@, "openai"@, "openrouter"@, "nvidia"@, "ollama"@, "lmstudio"@, "groq"@,
        "deepseek"@, "mistral"@, "perplexity"@, "together"@, "bedrock"@, "azure"@, "vertex"@,
    ]
}

/// Number of free models of each known provider, in order.
pub open spec fn free_model_counts() -> Seq<int> {
    seq![0, 0, 3, 3, 0, 0, 1, 0, 0, 0, 0, 0, 0, 0]
}

fn provider(
    name: &str,
    display_name: &str,
    base_url: &str,
    api_key_env: &str,
    default_model: &str,
    free_models: Vec<String>,
) -> (p: Provider)
    ensures
        p.name@ == name@,
        p.display_name@ == display_name@,
        p.base_url@ == base_url@,
        p.api_key_env@ == api_key_env@,
        p.default_model@ == default_model@,
        p.free_models@ == free_models@,
        p.supports_streaming,
{
    Provider {
        name: owned(name),
        display_name: owned(display_name),
        base_url: owned(base_url),
        api_key_env: owned(api_key_env),
        default_model: owned(default_model),
        free_models,
        supports_streaming: true,
    }
}

/// Whether a provider is named `name`.
pub open spec fn provider_named(name: Seq<char>) -> spec_fn(Provider) -> bool {
    |p: Provider| p.name@ == name
}

/// The providers with at least one free model, in order.
pub open spec fn free_providers(ps: Seq<Provider>) -> Seq<Provider>
    decreases ps.len(),
{
    if ps.len() == 0 {
        Seq::empty()
    } else {
        let rest = free_providers(ps.drop_last());
        if ps.last().free_models@.len() > 0 {
            rest.push(ps.last())
        } else {
            rest
        }
    }
}

/// A provider as values: name, display name, base URL, the environment
/// variable of its key, default model, free models.
pub open spec fn provider_row(p: Provider) -> (Seq<char>, Seq<char>, Seq<char>, Seq<char>, Seq<char>, Seq<Seq<char>>) {
    (p.name@, p.display_name@, p.base_url@, p.api_key_env@, p.default_model@, views(p.free_models@))
}

/// The known providers as values, in order, for an Azure endpoint (a
/// placeholder when there is none), the default and free models of the
/// Anthropic family, and the family's default models on Bedrock and Vertex.
pub open spec fn provider_rows(azure: Option<Seq<char>>, fm: Seq<char>, ffm: Seq<char>, bm: Seq<char>, vm: Seq<char>) -> Seq<
    (Seq<char>, Seq<char>, Seq<char>, Seq<char>, Seq<char>, Seq<Seq<char>>),
> {
    seq![
        ("anthropic"@, "Anthropic"@, "https://api.anthropic.com"@, "ANTHROPIC_API_KEY"@, fm, Seq::empty()),
        ("openai"@, "OpenAI"@, "https://api.openai.com/v1"@, "OPENAI_API_KEY"@, "gpt-4o"@, Seq::empty()),
        ("openrouter"@, "OpenRouter"@, "https://openrouter.ai/api/v1"@, "OPENROUTER_API_KEY"@, "anthropic/"@ + ffm,
            seq!["anthropic/"@ + ffm, "google/gemma-3-4b-it:free"@, "meta-llama/llama-3.3-70b-instruct:free"@]),
        ("nvidia"@, "NVIDIA NIM"@, "https://integrate.api.nvidia.com/v1"@, "NVIDIA_API_KEY"@, "meta/llama-3.1-8b-instruct"@,
            seq!["meta/llama-3.1-8b-instruct"@, "mistralai/mistral-7b-instruct-v0.3"@, "google/gemma-2-9b-it"@]),
        ("ollama"@, "Ollama"@, "http://localhost:11434/v1"@, ""@, "llama3.2"@, Seq::empty()),
        ("lmstudio"@, "LM Studio"@, "http://localhost:1234/v1"@, ""@, "local-model"@, Seq::empty()),
        ("groq"@, "Groq"@, "https://api.groq.com/openai/v1"@, "GROQ_API_KEY"@, "llama-3.1-8b-instant"@,
            seq!["llama-3.1-8b-instant"@]),
        ("deepseek"@, "DeepSeek"@, "https://api.deepseek.com/v1"@, "DEEPSEEK_API_KEY"@, "deepseek-chat"@, Seq::empty()),
        ("mistral"@, "Mistral AI"@, "https://api.mistral.ai/v1"@, "MISTRAL_API_KEY"@, "mistral-small-latest"@, Seq::empty()),
        ("perplexity"@, "Perplexity"@, "https://api.perplexity.ai"@, "PERPLEXITY_API_KEY"@,
            "llama-3.1-sonar-small-128k-online"@, Seq::empty()),
        ("together"@, "Together AI"@, "https://api.together.xyz/v1"@, "TOGETHER_API_KEY"@,
            "meta-llama/Llama-3.3-70B-Instruct-Turbo"@, Seq::empty()),
        ("bedrock"@, "AWS Bedrock"@, "https://bedrock.us-east-1.amazonaws.com"@, "AWS_ACCESS_KEY_ID"@, bm, Seq::empty()),
        ("azure"@, "Azure OpenAI"@, match azure { Some(e) => e, None => "https://<resource>.openai.azure.com"@ },
            "AZURE_OPENAI_KEY"@, "gpt-4o"@, Seq::empty()),
        ("vertex"@, "Google Vertex AI"@, "https://{location}-aiplatform.googleapis.com/v1"@, "GOOGLE_API_KEY"@, vm,
            Seq::empty()),
    ]
}

impl MultiProvider {
    /// The known providers. Azure's endpoint is `$AZURE_OPENAI_ENDPOINT`,
    /// which the caller reads and hands in, or a placeholder. The default
    /// models of the Anthropic family (on its own API, on Bedrock and on
    /// Vertex) and the free one offered through OpenRouter are configuration
    /// that the caller hands in.
    pub fn new(
        azure_endpoint: Option<&str>,
        family_model: &str,
        family_free_model: &str,
        bedrock_model: &str,
        vertex_model: &str,
    ) -> (r: Self)
        ensures
            r.providers@.len() == 14,
            forall|i: int| 0 <= i < 14 ==> (#[trigger] r.providers@[i]).name@ == provider_names()[i]
                && r.providers@[i].free_models@.len() == free_model_counts()[i]
                && r.providers@[i].supports_streaming,
            r.providers@[12].base_url@ == (match azure_endpoint {
                Some(e) => e@,
                None => "https://<resource>.openai.azure.com"@,
            }),
            forall|i: int| 0 <= i < 14 ==> provider_row(#[trigger] r.providers@[i]) == provider_rows(
                crate::cron::str_opt_view(azure_endpoint),
                family_model@,
                family_free_model@,
                bedrock_model@,
                vertex_model@,
            )[i],
    {
        let mut ps: Vec<Provider> = Vec::new();
        ps.push(provider("anthropic", "Anthropic", "https://api.anthropic.com", "ANTHROPIC_API_KEY", family_model, Vec::new()));
        ps.push(provider("openai", "OpenAI", "https://api.openai.com/v1", "OPENAI_API_KEY", "gpt-4o", Vec::new()));
        let mut openrouter_free: Vec<String> = Vec::new();
        let mut openrouter_default = owned("anthropic/");
        push_str(&mut openrouter_default, family_free_model);
        openrouter_free.push(openrouter_default.clone());
        openrouter_free.push(owned("google/gemma-3-4b-it:free"));
        openrouter_free.push(owned("meta-llama/llama-3.3-70b-instruct:free"));
        assert(views(openrouter_free@) =~= seq![
            "anthropic/"@ + family_free_model@, "google/gemma-3-4b-it:free"@, "meta-llama/llama-3.3-70b-instruct:free"@,
        ]);
        ps.push(provider("openrouter", "OpenRouter", "https://openrouter.ai/api/v1", "OPENROUTER_API_KEY", openrouter_default.as_str(), openrouter_free));
        let mut nvidia_free: Vec<String> = Vec::new();
        nvidia_free.push(owned("meta/llama-3.1-8b-instruct"));
        nvidia_free.push(owned("mistralai/mistral-7b-instruct-v0.3"));
        nvidia_free.push(owned("google/gemma-2-9b-it"));
        assert(views(nvidia_free@) =~= seq![
            "meta/llama-3.1-8b-instruct"@, "mistralai/mistral-7b-instruct-v0.3"@, "google/gemma-2-9b-it"@,
        ]);
        ps.push(provider("nvidia", "NVIDIA NIM", "https://integrate.api.nvidia.com/v1", "NVIDIA_API_KEY", "meta/llama-3.1-8b-instruct", nvidia_free));
        ps.push(provider("ollama", "Ollama", "http://localhost:11434/v1", "", "llama3.2", Vec::new()));
        ps.push(provider("lmstudio", "LM Studio", "http://localhost:1234/v1", "", "local-model", Vec::new()));
        let mut groq_free: Vec<String> = Vec::new();
        groq_free.push(owned("llama-3.1-8b-instant"));
        assert(views(groq_free@) =~= seq!["llama-3.1-8b-instant"@]);
        ps.push(provider("groq", "Groq", "https://api.groq.com/openai/v1", "GROQ_API_KEY", "llama-3.1-8b-instant", groq_free));
        ps.push(provider("deepseek", "DeepSeek", "https://api.deepseek.com/v1", "DEEPSEEK_API_KEY", "deepseek-chat", Vec::new()));
        ps.push(provider("mistral", "Mistral AI", "https://api.mistral.ai/v1", "MISTRAL_API_KEY", "mistral-small-latest", Vec::new()));
        ps.push(provider("perplexity", "Perplexity", "https://api.perplexity.ai", "PERPLEXITY_API_KEY", "llama-3.1-sonar-small-128k-online", Vec::new()));
        ps.push(provider("together", "Together AI", "https://api.together.xyz/v1", "TOGETHER_API_KEY", "meta-llama/Llama-3.3-70B-Instruct-Turbo", Vec::new()));
        ps.push(provider("bedrock", "AWS Bedrock", "https://bedrock.us-east-1.amazonaws.com", "AWS_ACCESS_KEY_ID", bedrock_model, Vec::new()));
        let azure_url = match azure_endpoint {
            Some(e) => e,
            None => "https://<resource>.openai.azure.com",
        };
        ps.push(provider("azure", "Azure OpenAI", azure_url, "AZURE_OPENAI_KEY", "gpt-4o", Vec::new()));
        ps.push(provider("vertex", "Google Vertex AI", "https://{location}-aiplatform.googleapis.com/v1", "GOOGLE_API_KEY", vertex_model, Vec::new()));
        let r = MultiProvider { providers: ps };
        assert forall|i: int| 0 <= i < 14 implies (#[trigger] r.providers@[i]).name@ == provider_names()[i]
            && r.providers@[i].free_models@.len() == free_model_counts()[i]
            && r.providers@[i].supports_streaming by {}
        assert forall|i: int| 0 <= i < 14 implies provider_row(#[trigger] r.providers@[i]) == provider_rows(
            crate::cron::str_opt_view(azure_endpoint),
            family_model@,
            family_free_model@,
            bedrock_model@,
            vertex_model@,
        )[i] by {
            assert(views(Seq::<String>::empty()) =~= Seq::<Seq<char>>::empty());
        }
        r
    }

    /// The first provider named `name`.
    pub fn get(&self, name: &str) -> (r: Option<&Provider>)
        ensures
            match first_index(self.providers@, provider_named(name@), 0) {
                Some(i) => r == Some(&self.providers@[i]),
                None => r is None,
            },
    {
        let mut i: usize = 0;
        while i < self.providers.len()
            invariant
                i <= self.providers@.len(),
                first_index(self.providers@, provider_named(name@), 0) == first_index(
                    self.providers@,
                    provider_named(name@),
                    i as int,
                ),
            decreases self.providers.len() - i,
        {
            if crate::text::str_eq(self.providers[i].name.as_str(), name) {
                return Some(&self.providers[i]);
            }
            i = i + 1;
        }
        None
    }

    /// Every provider, in order.
    pub fn list(&self) -> (r: Vec<&Provider>)
        ensures
            r@.len() == self.providers@.len(),
            forall|i: int| 0 <= i < r@.len() ==> *r@[i] == self.providers@[i],
    {
        let mut r: Vec<&Provider> = Vec::new();
        let mut i: usize = 0;
        while i < self.providers.len()
            invariant
                i <= self.providers@.len(),
                r@.len() == i,
                forall|k: int| 0 <= k < i ==> *r@[k] == self.providers@[k],
            decreases self.providers.len() - i,
        {
            r.push(&self.providers[i]);
            i = i + 1;
        }
        r
    }

    /// The providers with at least one free model, in order.
    pub fn list_free_providers(&self) -> (r: Vec<&Provider>)
        ensures
            r@.len() == free_providers(self.providers@).len(),
            forall|i: int| 0 <= i < r@.len() ==> *r@[i] == free_providers(self.providers@)[i],
    {
        let mut r: Vec<&Provider> = Vec::new();
        let mut i: usize = 0;
        while i < self.providers.len()
            invariant
                i <= self.providers@.len(),
                r@.len() == free_providers(self.providers@.subrange(0, i as int)).len(),
                forall|k: int| 0 <= k < r@.len() ==> *r@[k] == free_providers(
                    self.providers@.subrange(0, i as int),
                )[k],
            decreases self.providers.len() - i,
        {
            proof {
                let pre = self.providers@.subrange(0, i + 1);
                assert(pre.drop_last() =~= self.providers@.subrange(0, i as int));
                assert(pre.last() == self.providers@[i as int]);
            }
            if self.providers[i].free_models.len() > 0 {
                r.push(&self.providers[i]);
            }
            i = i + 1;
        }
        assert(self.providers@.subrange(0, self.providers@.len() as int) =~= self.providers@);
        r
    }
}

} // verus!
