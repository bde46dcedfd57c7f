use vstd::prelude::*;

verus! {

/// A model the assistant can recommend, with a description and a size label.
#[derive(Debug, Clone)]
pub struct ModelInfo {
    pub name: String,
    pub description: String,
    pub size: String,
}

impl ModelInfo {
    pub fn new(name: &str, description: &str, size: &str) -> (r: Self)
        ensures
            r.name@ == name@,
            r.description@ == description@,
            r.size@ == size@,
    {
        ModelInfo {
            name: name.to_string(),
            description: description.to_string(),
            size: size.to_string(),
        }
    }
}

/// The recommended models, in the order they are offered: name,
/// description, size label.
pub open spec fn recommended() -> Seq<(Seq<char>, Seq<char>, Seq<char>)> {
    seq![
        ("gemma3:12b"@, "Google's Gemma 3 12B model, good general performance for security tasks"@, "12B"@),
        ("deepseek-coder:6.7b"@, "Model focused on code analysis and generation, useful for exploit development"@, "6.7B"@),
        ("deepseek-r1:8b"@, "Lightweight yet powerful reasoning model for security analysis"@, "8B"@),
        ("llama3:8b"@, "Meta's Llama 3 8B model, good balance of performance and resource usage"@, "8B"@),
        ("phi3:14b"@, "Microsoft's Phi-3 large model, excellent for complex security reasoning"@, "14B"@),
        ("mixtral:8x7b"@, "Mistral AI's mixture of experts model, very strong on complex security tasks"@, "8x7B"@),
    ]
}

/// The models recommended for security work.
pub fn get_recommended_models() -> (r: Vec<ModelInfo>)
    ensures
        r@.len() == recommended().len(),
        forall|i: int|
            0 <= i < r@.len() ==> {
                &&& #[trigger] r@[i].name@ == recommended()[i].0
                &&& r@[i].description@ == recommended()[i].1
                &&& r@[i].size@ == recommended()[i].2
            },
{
    let r = vec![
        ModelInfo::new(
            "gemma3:12b",
            "Google's Gemma 3 12B model, good general performance for security tasks",
            "12B",
        ),
        ModelInfo::new(
            "deepseek-coder:6.7b",
            "Model focused on code analysis and generation, useful for exploit development",
            "6.7B",
        ),
        ModelInfo::new(
            "deepseek-r1:8b",
            "Lightweight yet powerful reasoning model for security analysis",
            "8B",
        ),
        ModelInfo::new(
            "llama3:8b",
            "Meta's Llama 3 8B model, good balance of performance and resource usage",
            "8B",
        ),
        ModelInfo::new(
            "phi3:14b",
            "Microsoft's Phi-3 large model, excellent for complex security reasoning",
            "14B",
        ),
        ModelInfo::new(
            "mixtral:8x7b",
            "Mistral AI's mixture of experts model, very strong on complex security tasks",
            "8x7B",
        ),
    ];
    r
}

} // verus!
