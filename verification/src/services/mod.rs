pub mod audio_service;
pub mod database_service;
pub mod news_service;
pub mod provider_service;
pub mod weather_service;
