mod args;
mod laws;
mod orchestrate;
mod registry;
mod text;

pub use args::Directive;
pub use args::Mode;
pub use args::ParseError;
pub use args::Request;
pub use args::SpecDirective;
pub use args::SpecParseError;
pub use args::SpecRequest;
pub use args::canonical_digits;
pub use args::interpret;
pub use args::interpret_tokens;
pub use args::level_in_range;
pub use args::max_level;
pub use laws::flag_mode;
pub use laws::is_bare_token;
pub use laws::is_mode_flag;
pub use laws::lemma_empty_args_help;
pub use laws::lemma_mode_flag_last_writer_wins;
pub use laws::lemma_positional_overflow;
pub use orchestrate::IoError;
pub use orchestrate::Plan;
pub use orchestrate::SpecIoError;
pub use orchestrate::SpecPlan;
pub use orchestrate::plan;
pub use orchestrate::spec_plan;
pub use registry::EngineHandle;
pub use registry::lookup;
pub use registry::try_lookup;
pub use text::help_text;
pub use text::spec_help_text;
pub use text::spec_version_text;
pub use text::version_text;
