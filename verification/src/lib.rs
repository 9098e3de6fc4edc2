//! A state-management core for terminal user interfaces: screens driven by an
//! event loop, a signal protocol for continuing, returning or cancelling,
//! modal dialogs composed over a background screen, and input forms built from
//! typed fields with validation.
//!
//! Every screen, dialog and field carries a ghost model, and its behaviour is
//! specified as a function on models; the event loop, the compositor's
//! geometry and the form machinery are verified against those models. The
//! interactive front end owns the terminal device: it renders the draw
//! descriptions produced here, reads input events, and feeds them to the
//! verified per-event steps.

mod basic;
mod checkbox;
mod context;
mod dialog;
mod env;
mod field;
mod form;
mod form_run;
mod key;
mod layout;
mod radio;
mod result_like;
mod slider;
mod state;
mod text;
mod textbox;
mod toggle;

pub use basic::Confirm;
pub use basic::ConfirmModel;
pub use basic::Message;
pub use basic::MessageModel;
pub use basic::Select;
pub use basic::SelectModel;
pub use basic::confirm;
pub use basic::error;
pub use basic::fatal;
pub use basic::info;
pub use basic::lemma_message_never_cancels;
pub use basic::message;
pub use basic::select_index;
pub use basic::select_value;
pub use basic::spec_message_draw;
pub use basic::spec_select_line;
pub use basic::warning;

pub use checkbox::Checkbox;
pub use checkbox::CheckboxModel;
pub use checkbox::spec_checkbox_char;
pub use checkbox::spec_checkbox_input;

pub use context::Context;
pub use context::Environment;

pub use dialog::Container;
pub use dialog::Dialog;
pub use dialog::DialogOutcome;
pub use dialog::DialogSignal;
pub use dialog::DialogStep;
pub use dialog::DrawInfo;
pub use dialog::DrawInfoView;
pub use dialog::WrapMode;
pub use dialog::lemma_container_run_never_fails;
pub use dialog::run_over;
pub use dialog::spec_default_draw_info;

pub use env::EnvModel;
pub use env::TermCommand;
pub use env::TermFlags;
pub use env::acquire_commands;
pub use env::apply_commands;
pub use env::lemma_acquire_release_restores;
pub use env::lemma_acquire_sets_flags;
pub use env::lemma_hook_installed_once;
pub use env::lemma_release_normalizes;
pub use env::release_commands;
pub use env::spec_acquire_commands;
pub use env::spec_acquired;
pub use env::spec_apply;
pub use env::spec_release_commands;
pub use env::spec_step;
pub use env::step_command;

pub use field::Build;
pub use field::Field;
pub use field::InputResult;

pub use form::Check;
pub use form::CheckKind;
pub use form::CheckKindModel;
pub use form::CheckModel;
pub use form::Control;
pub use form::ControlModel;
pub use form::ControlState;
pub use form::ControlStateModel;
pub use form::EntryModel;
pub use form::FieldModel;
pub use form::FieldValue;
pub use form::FieldValueModel;
pub use form::Form;
pub use form::FormEntry;
pub use form::FormField;
pub use form::FormModel;
pub use form::chars_equal;
pub use form::check_fires;
pub use form::check_kind_model;
pub use form::check_model;
pub use form::clone_string;
pub use form::control_model;
pub use form::control_state_model;
pub use form::entry_model;
pub use form::field_value_model;
pub use form::form_field_model;
pub use form::form_model;
pub use form::format_control_error;
pub use form::format_dialog;
pub use form::format_field;
pub use form::input_dispatch;
pub use form::spec_check_fires;
pub use form::spec_concat_texts;
pub use form::spec_error_messages;
pub use form::spec_field_format;
pub use form::spec_field_input;
pub use form::spec_field_name;
pub use form::spec_field_value;
pub use form::spec_form_input;
pub use form::spec_form_rows;
pub use form::spec_form_values;
pub use form::spec_format_dialog;
pub use form::spec_format_field;
pub use form::spec_input_dispatch;
pub use form::spec_join_lines;
pub use form::spec_max_name_len;
pub use form::spec_refresh;
pub use form::spec_result_views;
pub use form::spec_run_checks;

pub use form_run::AcceptAll;
pub use form_run::FieldRule;
pub use form_run::FormPhase;
pub use form_run::FormRunState;
pub use form_run::Validator;
pub use form_run::lemma_form_escape_abandons;
pub use form_run::lemma_form_step_preserves_wf;
pub use form_run::lemma_run_form_preserves_wf;
pub use form_run::phase_wf;
pub use form_run::lemma_form_focus_clamped;
pub use form_run::lemma_form_submit_accepts;
pub use form_run::lemma_refresh_preserves_values;
pub use form_run::lemma_run_form_append;
pub use form_run::run_form;
pub use form_run::spec_entry_views;
pub use form_run::spec_form_step;
pub use form_run::spec_refresh_form;
pub use form_run::spec_run_form;

pub use key::Event;
pub use key::KeyCode;
pub use key::KeyEvent;
pub use key::KeyModifiers;

pub use layout::DialogLayout;
pub use layout::Rect;
pub use layout::dialog_layout;
pub use layout::lemma_layout_centred;
pub use layout::make_title;
pub use layout::spec_body_height;
pub use layout::spec_dialog_layout;
pub use layout::spec_hint_height;
pub use layout::spec_inner_width;
pub use layout::upper_of;
pub use layout::wrapped_line_count;

pub use radio::Radio;
pub use radio::RadioModel;
pub use radio::spec_radio_input;

pub use result_like::NoFailure;
pub use result_like::ResultLike;

pub use slider::Slider;
pub use slider::SliderModel;
pub use slider::SliderValue;
pub use slider::decimal_chars;
pub use slider::spec_decimal;
pub use slider::spec_slider_input;

pub use state::RunModel;
pub use state::RunResult;
pub use state::Signal;
pub use state::State;
pub use state::StateError;
pub use state::StateRun;
pub use state::StateStep;
pub use state::StepModel;
pub use state::lemma_run_ignores_events_after_terminal;
pub use state::lemma_run_stops_at_cancel;
pub use state::lemma_run_stops_at_return;
pub use state::run_events;
pub use state::run_matches;
pub use state::spec_run;

pub use text::Color;
pub use text::Line;
pub use text::Span;
pub use text::SpanView;
pub use text::Style;
pub use text::Text;
pub use text::chars_vec;
pub use text::clone_chars;
pub use text::spaces;
pub use text::spec_line_chars;
pub use text::spec_text_chars;

pub use textbox::Textbox;
pub use textbox::TextboxModel;
pub use textbox::spec_is_ws;
pub use textbox::spec_scan_left;
pub use textbox::spec_scan_right;
pub use textbox::spec_textbox_format;
pub use textbox::spec_textbox_input;
pub use textbox::spec_visible;
pub use textbox::spec_word_left;
pub use textbox::spec_word_right;

pub use toggle::Bits;
pub use toggle::Toggle;
pub use toggle::ToggleModel;
pub use toggle::exactly;
pub use toggle::less_than;
pub use toggle::more_than;
pub use toggle::not_exactly;
pub use toggle::outside_range;
pub use toggle::spec_count_true;
pub use toggle::spec_set_all;
pub use toggle::spec_toggle_input;
pub use toggle::toggle_bits;
