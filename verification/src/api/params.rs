pub mod answer_callback_query;
pub mod ban_chat_sender_chat;
pub mod delete_sticker_from_set;
pub mod unpin_chat_message;
pub mod send_message;
pub mod set_game_score;
