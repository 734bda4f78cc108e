//! Execution engine of a small command language: a tree of commands is
//! built from a parse tree, then interpreted step by step against the
//! shell's state, with the work that touches the system handed out as
//! actions.
mod ast;
mod builder;
mod builtins;
mod error;
mod executor;
mod laws;
mod machine;
mod parse_tree;
mod paths;
mod test_expr;
mod text;
mod vars;

pub use ast::{
    ArgView, CmdArg, Command, Conditional, RedirView, Redirection, SimpleCommand, Token, TokenView,
    WhileLoop,
};
pub use builder::{
    and_or_built, heredoc_cursor, buildable, buildable_upto, built_as, classify, collapse, collapse_tokens, delimiter_at, has_heredoc_part,
    is_arg_kind, is_command_kind, is_redir_kind, joined, part_ok, part_tokens, pipeline_built,
    redir_fits, redir_parts, simple_built, single_arg, token_of, LineSource, NameView, Program,
};
pub use builtins::{builtin_named, Builtin, CmdName};
pub use error::{AstError, ExecError, Expl, TrshError};
pub use executor::{
    after_last_slash, alias_fits, builtin_fits, cd_fits, export_fits, fails_with, lone_missing_name,
    quiet_success, same_but_aliases, same_but_cwd, same_but_env, test_fits, unalias_fits, unset_fits,
    alias_line, alias_listing, label_of, alias_missing, alias_shown, aliased, arg_views, arg_words,
    default_search, export_line, export_listing, exported, implemented, removed_all, settable, shown,
    unaliased, BuiltinStep, Executor,
};
pub use laws::{
    finishes, is_program, law_and_short_circuit, law_cd_home_then_pwd, law_export_then_unset,
    law_or_short_circuit, law_pipeline_starts_both_sides, law_sequence_returns_last_status,
    law_test_status, sequence_run,
};
pub use machine::{
    absorb_fits, builtin_step_of, carries, feeds_pipe, input_plan_fits, last_input, last_output, launches, no_io, output_plan_fits,
    plan_streams, redir_views, resumes, starts, step_fits, stream_id, unboxed, unwinds, Action,
    Event, Frame, Io, Job, Launch, Mode, Outcome, StdinPlan, StdoutPlan, Stream, Wait,
    MAX_ALIAS_DEPTH,
};
pub use parse_tree::{
    delimiters_in, delimiters_of, heredoc_delimiters, kind_named, NodeKind, ParseNode,
};
pub use paths::{
    candidates, candidates_of, join_path, join_path_text, split_at_colons, split_colons,
};
pub use test_expr::{binary_test_named, status_of, unary_test_named, BinaryTest, UnaryTest};
pub use text::{
    all_digits, digit_value, digits_value, drop_leading_quotes, drop_trailing_quotes, has_char,
    drop_leading_white, drop_trailing_white, int_of_text, is_digit, is_white, parse_i64, same_text,
    strip_dollar, strip_quotes, trim_text, trimmed, unquoted,
    without_dollar,
};
pub use vars::{entry_view, keys_distinct, map_of, VarTable};
