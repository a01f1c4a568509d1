use vstd::prelude::*;

verus! {

/// The session status that the editor pipes in on stdin.
pub struct InputData {
    pub model: Option<Model>,
    pub context_window: Option<ContextWindow>,
    pub cwd: Option<String>,
    pub session: Option<Session>,
    pub thinking: Option<bool>,
    pub output_style: Option<OutputStyle>,
}

/// The model in use.
pub struct Model {
    pub id: Option<String>,
    pub display_name: Option<String>,
}

/// The context window and how much of it is used.
pub struct ContextWindow {
    pub context_window_size: Option<u64>,
    pub used_percentage: Option<u64>,
    pub current_usage: Option<CurrentUsage>,
}

/// Token counts of the current context.
pub struct CurrentUsage {
    pub input_tokens: Option<u64>,
    pub cache_creation_input_tokens: Option<u64>,
    pub cache_read_input_tokens: Option<u64>,
}

/// The session.
pub struct Session {
    pub start_time: Option<String>,
}

/// The output style (shown beside the model as its effort).
pub struct OutputStyle {
    pub name: Option<String>,
}

} // verus!
