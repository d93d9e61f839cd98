use vstd::prelude::*;
use vstd::string::StringExecFns;

use crate::strutil::{
    chars_to_string, contains_seq, lower_chars, spec_lower_seq, str_to_chars, vec_contains,
};

verus! {

/// What the file name and size alone suggest about a model: explicitly
/// best-effort heuristics, derived without parsing the model header.
pub struct ModelMetadata {
    /// The file name: the part of the path after the last separator.
    pub file_name: String,
    /// Size of the model file in bytes.
    pub file_size_bytes: u64,
    /// Parameter count suggested by the name.
    pub parameters: String,
    /// Quantization scheme suggested by the name.
    pub quantization: String,
    /// Architecture family suggested by the name.
    pub architecture: String,
    /// Typical layer count for that parameter count.
    pub estimated_layers: u32,
    /// Typical vocabulary size for that architecture.
    pub estimated_vocab_size: u32,
    /// Typical context length for that architecture.
    pub estimated_context_length: u32,
    /// Architecture and parameter count, joined for display.
    pub model_type: String,
}

/// The part of a path after its last separator.
pub open spec fn spec_file_name(s: Seq<char>) -> Seq<char>
    decreases s.len(),
{
    if s.len() == 0 {
        s
    } else if s.last() == '/' || s.last() == '\\' {
        Seq::empty()
    } else {
        spec_file_name(s.drop_last()).push(s.last())
    }
}

/// The parameter count a file name suggests.
pub open spec fn spec_parameters(name: Seq<char>) -> Seq<char> {
    if contains_seq(name, "3b"@) || contains_seq(name, "3B"@) {
        "3B"@
    } else if contains_seq(name, "7b"@) || contains_seq(name, "7B"@) {
        "7B"@
    } else if contains_seq(name, "8b"@) || contains_seq(name, "8B"@) {
        "8B"@
    } else if contains_seq(name, "13b"@) || contains_seq(name, "13B"@) {
        "13B"@
    } else if contains_seq(name, "70b"@) || contains_seq(name, "70B"@) {
        "70B"@
    } else {
        "Unknown"@
    }
}

/// The layer count that goes with the suggested parameter count.
pub open spec fn spec_layers(name: Seq<char>) -> u32 {
    if contains_seq(name, "3b"@) || contains_seq(name, "3B"@) {
        26u32
    } else if contains_seq(name, "7b"@) || contains_seq(name, "7B"@) {
        32u32
    } else if contains_seq(name, "8b"@) || contains_seq(name, "8B"@) {
        32u32
    } else if contains_seq(name, "13b"@) || contains_seq(name, "13B"@) {
        40u32
    } else if contains_seq(name, "70b"@) || contains_seq(name, "70B"@) {
        80u32
    } else {
        32u32
    }
}

/// The quantization scheme a file name suggests.
pub open spec fn spec_quantization(name: Seq<char>) -> Seq<char> {
    if contains_seq(name, "q4_k_m"@) || contains_seq(name, "Q4_K_M"@) {
        "Q4_K_M"@
    } else if contains_seq(name, "q5_k_m"@) || contains_seq(name, "Q5_K_M"@) {
        "Q5_K_M"@
    } else if contains_seq(name, "q6_k"@) || contains_seq(name, "Q6_K"@) {
        "Q6_K"@
    } else if contains_seq(name, "q8"@) || contains_seq(name, "Q8"@) {
        "Q8_0"@
    } else if contains_seq(name, "q4"@) || contains_seq(name, "Q4"@) {
        "Q4_0"@
    } else if contains_seq(name, "q5"@) || contains_seq(name, "Q5"@) {
        "Q5_0"@
    } else {
        "Unknown"@
    }
}

/// The architecture family a file name suggests, by its lowercased form.
pub open spec fn spec_architecture(name: Seq<char>) -> Seq<char> {
    let lower = spec_lower_seq(name);
    if contains_seq(lower, "llama"@) {
        "Llama"@
    } else if contains_seq(lower, "qwen"@) {
        "Qwen"@
    } else if contains_seq(lower, "mistral"@) {
        "Mistral"@
    } else if contains_seq(lower, "phi"@) {
        "Phi"@
    } else if contains_seq(lower, "gemma"@) {
        "Gemma"@
    } else {
        "Unknown"@
    }
}

/// The vocabulary size that goes with the suggested architecture.
pub open spec fn spec_vocab_size(name: Seq<char>) -> u32 {
    let lower = spec_lower_seq(name);
    if contains_seq(lower, "llama"@) {
        32000u32
    } else if contains_seq(lower, "qwen"@) {
        151936u32
    } else if contains_seq(lower, "mistral"@) {
        32000u32
    } else if contains_seq(lower, "phi"@) {
        51200u32
    } else if contains_seq(lower, "gemma"@) {
        256000u32
    } else {
        32000u32
    }
}

/// The context length that goes with the suggested architecture.
pub open spec fn spec_context_length(name: Seq<char>) -> u32 {
    let lower = spec_lower_seq(name);
    if contains_seq(lower, "llama"@) {
        8192u32
    } else if contains_seq(lower, "qwen"@) {
        32768u32
    } else if contains_seq(lower, "mistral"@) {
        32768u32
    } else if contains_seq(lower, "phi"@) {
        4096u32
    } else if contains_seq(lower, "gemma"@) {
        8192u32
    } else {
        4096u32
    }
}

/// A position from which every later character is a non-separator, and
/// whose left neighbour (if any) is a separator, marks where the file
/// name starts.
proof fn lemma_file_name_skip(s: Seq<char>, j: int)
    requires
        0 <= j <= s.len(),
        forall|k: int| j <= k < s.len() ==> !(s[k] == '/' || s[k] == '\\'),
        j == 0 || s[j - 1] == '/' || s[j - 1] == '\\',
    ensures
        spec_file_name(s) == s.skip(j),
    decreases s.len(),
{
    if s.len() == 0 {
        assert(s.skip(0) =~= s);
    } else if s.last() == '/' || s.last() == '\\' {
        assert(j == s.len());
        assert(s.skip(j) =~= Seq::<char>::empty());
    } else {
        assert(j < s.len());
        lemma_file_name_skip(s.drop_last(), j);
        assert(s.drop_last().skip(j).push(s.last()) =~= s.skip(j));
    }
}

/// The part of the path after the last `/` or `\` separator.
pub fn file_name_chars(path: &Vec<char>) -> (r: Vec<char>)
    ensures
        r@ == spec_file_name(path@),
{
    let mut j: usize = 0;
    let mut scan: usize = 0;
    while scan < path.len()
        invariant
            j <= scan <= path.len(),
            forall|k: int| j <= k < scan ==> !(path@[k] == '/' || path@[k] == '\\'),
            j == 0 || path@[j - 1] == '/' || path@[j - 1] == '\\',
        decreases path.len() - scan,
    {
        let c = path[scan];
        if c == '/' || c == '\\' {
            j = scan + 1;
        }
        scan += 1;
    }
    let mut out: Vec<char> = Vec::new();
    let mut i: usize = j;
    while i < path.len()
        invariant
            j <= i <= path@.len(),
            out@ == path@.subrange(j as int, i as int),
        decreases path.len() - i,
    {
        out.push(path[i]);
        proof {
            assert(path@.subrange(j as int, i + 1) =~= path@.subrange(j as int, i as int).push(
                path@[i as int],
            ));
        }
        i += 1;
    }
    proof {
        lemma_file_name_skip(path@, j as int);
        assert(path@.subrange(j as int, path@.len() as int) =~= path@.skip(j as int));
    }
    out
}

/// Derives best-effort metadata for a model file from its path and size
/// alone.  The embedding program reads the size from the file system;
/// nothing here opens the file.
pub fn model_metadata(path: &String, file_size_bytes: u64) -> (r: ModelMetadata)
    ensures
        r.file_name@ == spec_file_name(path@),
        r.file_size_bytes == file_size_bytes,
        r.parameters@ == spec_parameters(spec_file_name(path@)),
        r.quantization@ == spec_quantization(spec_file_name(path@)),
        r.architecture@ == spec_architecture(spec_file_name(path@)),
        r.estimated_layers == spec_layers(spec_file_name(path@)),
        r.estimated_vocab_size == spec_vocab_size(spec_file_name(path@)),
        r.estimated_context_length == spec_context_length(spec_file_name(path@)),
        r.model_type@ == spec_architecture(spec_file_name(path@)) + " "@ + spec_parameters(
            spec_file_name(path@),
        ),
{
    let path_chars = str_to_chars(path.as_str());
    let name = file_name_chars(&path_chars);

    let parameters: &str;
    let estimated_layers: u32;
    if vec_contains(&name, &str_to_chars("3b")) || vec_contains(&name, &str_to_chars("3B")) {
        parameters = "3B";
        estimated_layers = 26;
    } else if vec_contains(&name, &str_to_chars("7b")) || vec_contains(&name, &str_to_chars("7B")) {
        parameters = "7B";
        estimated_layers = 32;
    } else if vec_contains(&name, &str_to_chars("8b")) || vec_contains(&name, &str_to_chars("8B")) {
        parameters = "8B";
        estimated_layers = 32;
    } else if vec_contains(&name, &str_to_chars("13b")) || vec_contains(
        &name,
        &str_to_chars("13B"),
    ) {
        parameters = "13B";
        estimated_layers = 40;
    } else if vec_contains(&name, &str_to_chars("70b")) || vec_contains(
        &name,
        &str_to_chars("70B"),
    ) {
        parameters = "70B";
        estimated_layers = 80;
    } else {
        parameters = "Unknown";
        estimated_layers = 32;
    }

    let quantization: &str;
    if vec_contains(&name, &str_to_chars("q4_k_m")) || vec_contains(
        &name,
        &str_to_chars("Q4_K_M"),
    ) {
        quantization = "Q4_K_M";
    } else if vec_contains(&name, &str_to_chars("q5_k_m")) || vec_contains(
        &name,
        &str_to_chars("Q5_K_M"),
    ) {
        quantization = "Q5_K_M";
    } else if vec_contains(&name, &str_to_chars("q6_k")) || vec_contains(
        &name,
        &str_to_chars("Q6_K"),
    ) {
        quantization = "Q6_K";
    } else if vec_contains(&name, &str_to_chars("q8")) || vec_contains(&name, &str_to_chars("Q8")) {
        quantization = "Q8_0";
    } else if vec_contains(&name, &str_to_chars("q4")) || vec_contains(&name, &str_to_chars("Q4")) {
        quantization = "Q4_0";
    } else if vec_contains(&name, &str_to_chars("q5")) || vec_contains(&name, &str_to_chars("Q5")) {
        quantization = "Q5_0";
    } else {
        quantization = "Unknown";
    }

    let lower = lower_chars(&name);
    let architecture: &str;
    let estimated_vocab_size: u32;
    let estimated_context_length: u32;
    if vec_contains(&lower, &str_to_chars("llama")) {
        architecture = "Llama";
        estimated_vocab_size = 32000;
        estimated_context_length = 8192;
    } else if vec_contains(&lower, &str_to_chars("qwen")) {
        architecture = "Qwen";
        estimated_vocab_size = 151936;
        estimated_context_length = 32768;
    } else if vec_contains(&lower, &str_to_chars("mistral")) {
        architecture = "Mistral";
        estimated_vocab_size = 32000;
        estimated_context_length = 32768;
    } else if vec_contains(&lower, &str_to_chars("phi")) {
        architecture = "Phi";
        estimated_vocab_size = 51200;
        estimated_context_length = 4096;
    } else if vec_contains(&lower, &str_to_chars("gemma")) {
        architecture = "Gemma";
        estimated_vocab_size = 256000;
        estimated_context_length = 8192;
    } else {
        architecture = "Unknown";
        estimated_vocab_size = 32000;
        estimated_context_length = 4096;
    }

    let mut model_type = String::from_str(architecture);
    model_type.append(" ");
    model_type.append(parameters);

    ModelMetadata {
        file_name: chars_to_string(&name),
        file_size_bytes,
        parameters: String::from_str(parameters),
        quantization: String::from_str(quantization),
        architecture: String::from_str(architecture),
        estimated_layers,
        estimated_vocab_size,
        estimated_context_length,
        model_type,
    }
}

} // verus!
