pub mod cancel_task;
pub mod similar_image;
pub mod uuid_text;
