pub mod bect_messages;
pub mod process_type;
pub mod rating_detail;
pub mod tcoc_messages;
pub mod vetc_messages;
pub mod text;
pub mod wire;
pub mod etdr_types;
pub mod numtext;
pub mod checkin_rules;
pub mod keyed;
pub mod toll_types;
pub mod clock;
pub mod toll_cache;
pub mod toll_lane_cache;
pub mod etdr_cache;
pub mod etdr_build;
pub mod etdr_update;
pub mod boo_codec;
pub mod kafka_payload;
pub mod log_rules;
pub mod connect_rules;
pub mod checkout_rules;
pub mod tcoc_rules;
pub mod commit_rules;
pub mod tcd_rules;
pub mod checkout_cleanup;
pub mod checkin_flow;
pub mod vehicle_lookup;
pub mod etdr_sync;
pub mod pending_choice;
pub mod fe_codec;
pub mod transport_stage;
pub mod fe_reply;
pub mod request_steps;
pub mod rollback_boo;
pub mod message_laws;
