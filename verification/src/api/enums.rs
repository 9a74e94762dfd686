pub mod chat_boost_source;
pub mod message_origin;
pub mod chat_uid;
pub mod passport_element_error;
pub mod input_message_content;
pub mod inline_query_result;
