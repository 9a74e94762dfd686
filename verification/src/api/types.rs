pub mod user;
pub mod chat;
pub mod message_id;
pub mod chat_boost;
pub mod user_chat_boosts;
pub mod audio;
pub mod photo_size;
pub mod inaccessible_message;
pub mod message_origin_chat;
pub mod message_origin_user;
pub mod video_chat_started;
pub mod chat_administrator_rights;
pub mod chat_member_administrator;
pub mod callback_query;
pub mod chat_boost_removed;
pub mod chat_join_request;
pub mod chat_member_updated;
pub mod chosen_inline_result;
pub mod inline_query;
pub mod message;
pub mod message_reaction_count_updated;
pub mod message_reaction_updated;
pub mod poll_answer;
pub mod pre_checkout_query;
pub mod shipping_query;
pub mod chat_boost_updated;
pub mod update;
pub mod link_preview_options;
pub mod message_entity;
pub mod reply_parameters;
pub mod inline_query_result_audio;
pub mod inline_query_result_cached_audio;
pub mod inline_query_result_cached_document;
pub mod inline_query_result_cached_gif;
pub mod inline_query_result_cached_mpeg4_gif;
pub mod inline_query_result_cached_photo;
pub mod inline_query_result_cached_sticker;
pub mod inline_query_result_cached_video;
pub mod inline_query_result_cached_voice;
pub mod inline_query_result_contact;
pub mod inline_query_result_document;
pub mod inline_query_result_game;
pub mod inline_query_result_gif;
pub mod inline_query_result_location;
pub mod inline_query_result_mpeg4_gif;
pub mod inline_query_result_photo;
pub mod inline_query_result_venue;
pub mod inline_query_result_video;
pub mod inline_query_result_voice;
pub mod input_contact_message_content;
pub mod input_invoice_message_content;
pub mod input_location_message_content;
pub mod input_text_message_content;
pub mod input_venue_message_content;
pub mod passport_element_error_data_field;
pub mod passport_element_error_file;
pub mod passport_element_error_front_side;
pub mod passport_element_error_reverse_side;
pub mod passport_element_error_selfie;
pub mod passport_element_error_translation_file;
pub mod passport_element_error_unspecified;
pub mod passport_element_error_files;
pub mod passport_element_error_translation_files;
pub mod inline_query_result_article;
