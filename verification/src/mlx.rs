//! MLX on Apple Silicon: its settings, the community models on offer, the
//! Python scripts that download models and generate text, and the status
//! report. Detecting the machine, running Python and reaching HuggingFace
//! happen at the caller.

use vstd::prelude::*;
use crate::dirs::{join_path, path_join};
use crate::text::{
    clone_opt, opt_view, owned, push_str, replace_all, replace_str, str_eq, to_lowercase, trim, trim_str,
    lowercase_of,
};

verus! {

/// MLX settings and state.
pub struct MlxConfig {
    /// Whether MLX can run on this machine.
    pub available: bool,
    /// Whether MLX is the preferred provider.
    pub enabled: bool,
    /// The model loaded, if any.
    pub loaded_model: Option<String>,
    /// Where models are cached.
    pub model_dir: String,
    /// The models found in the cache.
    pub cached_models: Vec<String>,
    /// The Python that runs `mlx-lm`, if not `python3`.
    pub python_path: Option<String>,
}

/// A model listed by HuggingFace.
pub struct ModelInfo {
    pub id: String,
    pub name: String,
    pub size: Option<String>,
    pub description: Option<String>,
    pub downloads: Option<u64>,
}

/// The directory models are cached in: `mlx-models` under the user's
/// cache directory, or under `~/.cache` when there is none.
pub open spec fn model_dir_under(cache_dir: Option<Seq<char>>) -> Seq<char> {
    match cache_dir {
        Some(c) => path_join(c, "mlx-models"@),
        None => path_join("~/.cache"@, "mlx-models"@),
    }
}

impl MlxConfig {
    /// MLX settings before detection: nothing available, enabled, loaded
    /// or cached; models kept under the cache directory `cache_dir`.
    pub fn new(cache_dir: Option<&str>) -> (r: Self)
        ensures
            !r.available && !r.enabled,
            r.loaded_model is None,
            r.model_dir@ == model_dir_under(crate::cron::str_opt_view(cache_dir)),
            r.cached_models@.len() == 0,
            r.python_path is None,
    {
        MlxConfig {
            available: false,
            enabled: false,
            loaded_model: None,
            model_dir: MlxConfig::default_model_dir(cache_dir),
            cached_models: Vec::new(),
            python_path: None,
        }
    }

    /// The directory models are cached in, for the user's cache directory.
    pub fn default_model_dir(cache_dir: Option<&str>) -> (r: String)
        ensures
            r@ == model_dir_under(crate::cron::str_opt_view(cache_dir)),
    {
        match cache_dir {
            Some(c) => join_path(c, "mlx-models"),
            None => join_path("~/.cache", "mlx-models"),
        }
    }

    /// The Python that runs `mlx-lm`.
    pub fn python(&self) -> (r: &str)
        ensures
            r@ == (match self.python_path {
                Some(p) => p@,
                None => "python3"@,
            }),
    {
        match &self.python_path {
            Some(p) => p.as_str(),
            None => "python3",
        }
    }
}

/// Whether `sysctl -n hw.optional.arm64` printed that the machine is ARM64.
pub fn arm64_from_sysctl(stdout: &str) -> (b: bool)
    ensures
        b == (trim(stdout@) == "1"@),
{
    let t = trim_str(stdout);
    str_eq(t.as_str(), "1")
}

/// Whether `uname -m` printed `arm64`, in any case.
pub fn arm64_from_uname(stdout: &str) -> (b: bool)
    ensures
        b == (lowercase_of(trim(stdout@)) == "arm64"@),
{
    let t = trim_str(stdout);
    let l = to_lowercase(t.as_str());
    str_eq(l.as_str(), "arm64")
}

/// Whether to suggest MLX: on Apple Silicon.
pub fn should_suggest_mlx(apple_silicon: bool) -> (b: bool)
    ensures
        b == apple_silicon,
{
    apple_silicon
}

/// The popular mlx-community models: their ids and descriptions.
pub open spec fn community_models() -> Seq<(Seq<char>, Seq<char>)> {
    seq![
        ("mlx-community/llama-3.2-1b-instruct-4bit"@, "Llama 3.2 1B (4-bit, ~700MB)"@),
        ("mlx-community/llama-3.2-3b-instruct-4bit"@, "Llama 3.2 3B (4-bit, ~2GB)"@),
        ("mlx-community/Qwen2.5-0.5B-Instruct-4bit"@, "Qwen 2.5 0.5B (4-bit, ~400MB)"@),
        ("mlx-community/Qwen2.5-1.5B-Instruct-4bit"@, "Qwen 2.5 1.5B (4-bit, ~1GB)"@),
        ("mlx-community/gemma-2b-it-4bit"@, "Gemma 2B (4-bit, ~1.8GB)"@),
        ("mlx-community/llama-3.1-8b-instruct-4bit"@, "Llama 3.1 8B (4-bit, ~5GB)"@),
        ("mlx-community/Qwen2.5-7B-Instruct-4bit"@, "Qwen 2.5 7B (4-bit, ~4GB)"@),
        ("mlx-community/mistral-7b-instruct-v0.3-4bit"@, "Mistral 7B v0.3 (4-bit, ~4GB)"@),
        ("mlx-community/llama-3.1-70b-instruct-4bit"@, "Llama 3.1 70B (4-bit, ~40GB)"@),
        ("mlx-community/Qwen2.5-72B-Instruct-4bit"@, "Qwen 2.5 72B (4-bit, ~42GB)"@),
    ]
}

/// The popular mlx-community models, small ones first: (id, description).
pub fn mlx_community_models() -> (r: Vec<(&'static str, &'static str)>)
    ensures
        r@.len() == community_models().len(),
        forall|i: int| 0 <= i < r@.len() ==> (#[trigger] r@[i]).0@ == community_models()[i].0 && r@[i].1@
            == community_models()[i].1,
{
    let v: Vec<(&'static str, &'static str)> = vec![
        ("mlx-community/llama-3.2-1b-instruct-4bit", "Llama 3.2 1B (4-bit, ~700MB)"),
        ("mlx-community/llama-3.2-3b-instruct-4bit", "Llama 3.2 3B (4-bit, ~2GB)"),
        ("mlx-community/Qwen2.5-0.5B-Instruct-4bit", "Qwen 2.5 0.5B (4-bit, ~400MB)"),
        ("mlx-community/Qwen2.5-1.5B-Instruct-4bit", "Qwen 2.5 1.5B (4-bit, ~1GB)"),
        ("mlx-community/gemma-2b-it-4bit", "Gemma 2B (4-bit, ~1.8GB)"),
        ("mlx-community/llama-3.1-8b-instruct-4bit", "Llama 3.1 8B (4-bit, ~5GB)"),
        ("mlx-community/Qwen2.5-7B-Instruct-4bit", "Qwen 2.5 7B (4-bit, ~4GB)"),
        ("mlx-community/mistral-7b-instruct-v0.3-4bit", "Mistral 7B v0.3 (4-bit, ~4GB)"),
        ("mlx-community/llama-3.1-70b-instruct-4bit", "Llama 3.1 70B (4-bit, ~40GB)"),
        ("mlx-community/Qwen2.5-72B-Instruct-4bit", "Qwen 2.5 72B (4-bit, ~42GB)"),
    ];
    v
}

/// A prompt written into a single-quoted Python string: backslashes,
/// quotes and newlines escaped, in that order.
pub open spec fn python_escaped(prompt: Seq<char>) -> Seq<char> {
    replace_all(replace_all(replace_all(prompt, "\\"@, "\\\\"@), "'"@, "\\'"@), "\n"@, "\\n"@)
}

/// `prompt` escaped for a single-quoted Python string.
pub fn escape_prompt(prompt: &str) -> (r: String)
    ensures
        r@ == python_escaped(prompt@),
{
    proof {
        reveal_strlit("\\");
        reveal_strlit("'");
        reveal_strlit("\n");
    }
    let a = replace_str(prompt, "\\", "\\\\");
    let b = replace_str(a.as_str(), "'", "\\'");
    replace_str(b.as_str(), "\n", "\\n")
}

/// The Python script that generates text for `prompt` with `model`, whole
/// or streamed chunk by chunk.
pub open spec fn generate_script_text(model: Seq<char>, prompt: Seq<char>, streaming: bool) -> Seq<char> {
    if streaming {
        "from mlx_lm import generate\nmodel_path = '"@ + model + "'\nfor chunk in generate(model_path, prompt='"@
            + python_escaped(prompt) + "', stream=True):\n    print(chunk, end='', flush=True)\n"@
    } else {
        "from mlx_lm import generate\nmodel_path = '"@ + model + "'\nresponse = generate(model_path, prompt='"@
            + python_escaped(prompt) + "')\nprint(response, end='', flush=True)\n"@
    }
}

/// The script `python -c` runs to generate text.
pub fn generate_script(model: &str, prompt: &str, streaming: bool) -> (r: String)
    ensures
        r@ == generate_script_text(model@, prompt@, streaming),
{
    let escaped = escape_prompt(prompt);
    let mut s = owned("from mlx_lm import generate\nmodel_path = '");
    push_str(&mut s, model);
    if streaming {
        push_str(&mut s, "'\nfor chunk in generate(model_path, prompt='");
        push_str(&mut s, escaped.as_str());
        push_str(&mut s, "', stream=True):\n    print(chunk, end='', flush=True)\n");
    } else {
        push_str(&mut s, "'\nresponse = generate(model_path, prompt='");
        push_str(&mut s, escaped.as_str());
        push_str(&mut s, "')\nprint(response, end='', flush=True)\n");
    }
    s
}

/// The script `python -c` runs to download a model.
pub fn download_script(model_id: &str) -> (r: String)
    ensures
        r@ == "from mlx_lm.hub import download; download('"@ + model_id@ + "')"@,
{
    let mut s = owned("from mlx_lm.hub import download; download('");
    push_str(&mut s, model_id);
    push_str(&mut s, "')");
    s
}

/// A model HuggingFace lists under `id`: named by its id without the
/// `mlx-community/` part.
pub fn model_info_from_hub(id: &str, downloads: Option<u64>) -> (r: ModelInfo)
    ensures
        r.id@ == id@,
        r.name@ == replace_all(id@, "mlx-community/"@, ""@),
        r.size is None && r.description is None,
        r.downloads == downloads,
{
    proof {
        reveal_strlit("mlx-community/");
    }
    ModelInfo {
        id: owned(id),
        name: replace_str(id, "mlx-community/", ""),
        size: None,
        description: None,
        downloads,
    }
}

/// The lines listing cached models, each as `  - name`.
pub open spec fn cached_lines(ms: Seq<Seq<char>>) -> Seq<char>
    decreases ms.len(),
{
    if ms.len() == 0 {
        Seq::empty()
    } else {
        cached_lines(ms.drop_last()) + "  - "@ + ms.last() + "\n"@
    }
}

/// The MLX status report; `mlx_lm_installed` is whether `mlx-lm` was found.
pub open spec fn mlx_status_text(
    available: bool,
    mlx_lm_installed: bool,
    model_dir: Seq<char>,
    cached: Seq<Seq<char>>,
    loaded: Option<Seq<char>>,
) -> Seq<char> {
    "=== MLX (Apple Silicon) Status ===\n\n"@ + if available {
        "✓ Running on Apple Silicon Mac\n\n"@ + (if mlx_lm_installed {
            "✓ mlx-lm installed\n"@
        } else {
            "✗ mlx-lm not installed\n  Install with: pip install mlx-lm\n"@
        }) + "\nModel directory: "@ + model_dir + "\n"@ + (if cached.len() > 0 {
            "\nCached models:\n"@ + cached_lines(cached)
        } else {
            Seq::empty()
        }) + (match loaded {
            Some(m) => "\nCurrently loaded: "@ + m + "\n"@,
            None => Seq::empty(),
        }) + "\n"@
    } else {
        "✗ Not running on Apple Silicon Mac\n\nMLX provides native LLM inference on Apple Silicon.\nThis feature is only available on M1/M2/M3/M4 Macs.\n\n"@
    }
}

fn push_cached(s: &mut String, ms: &Vec<String>)
    ensures
        final(s)@ == old(s)@ + cached_lines(crate::text::views(ms@)),
{
    let ghost start = s@;
    let mut i: usize = 0;
    while i < ms.len()
        invariant
            i <= ms@.len(),
            s@ == start + cached_lines(crate::text::views(ms@).subrange(0, i as int)),
        decreases ms.len() - i,
    {
        proof {
            let pre = crate::text::views(ms@).subrange(0, i + 1);
            assert(pre.drop_last() =~= crate::text::views(ms@).subrange(0, i as int));
        }
        push_str(s, "  - ");
        push_str(s, ms[i].as_str());
        push_str(s, "\n");
        i = i + 1;
    }
    assert(crate::text::views(ms@).subrange(0, ms@.len() as int) =~= crate::text::views(ms@));
}

/// The MLX status report for these settings; `mlx_lm_installed` is
/// whether `mlx-lm` was found.
pub fn mlx_status(config: &MlxConfig, mlx_lm_installed: bool) -> (r: String)
    ensures
        r@ == mlx_status_text(
            config.available,
            mlx_lm_installed,
            config.model_dir@,
            crate::text::views(config.cached_models@),
            opt_view(config.loaded_model),
        ),
{
    let mut s = owned("=== MLX (Apple Silicon) Status ===\n\n");
    if config.available {
        push_str(&mut s, "✓ Running on Apple Silicon Mac\n\n");
        if mlx_lm_installed {
            push_str(&mut s, "✓ mlx-lm installed\n");
        } else {
            push_str(&mut s, "✗ mlx-lm not installed\n  Install with: pip install mlx-lm\n");
        }
        push_str(&mut s, "\nModel directory: ");
        push_str(&mut s, config.model_dir.as_str());
        push_str(&mut s, "\n");
        if config.cached_models.len() > 0 {
            push_str(&mut s, "\nCached models:\n");
            push_cached(&mut s, &config.cached_models);
        }
        match &config.loaded_model {
            Some(m) => {
                push_str(&mut s, "\nCurrently loaded: ");
                push_str(&mut s, m.as_str());
                push_str(&mut s, "\n");
            },
            None => {},
        }
        push_str(&mut s, "\n");
    } else {
        push_str(
            &mut s,
            "✗ Not running on Apple Silicon Mac\n\nMLX provides native LLM inference on Apple Silicon.\nThis feature is only available on M1/M2/M3/M4 Macs.\n\n",
        );
    }
    s
}

} // verus!
