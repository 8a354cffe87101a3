pub mod autostart;
pub mod export;
pub mod html_serializer;
pub mod import;
pub mod wallpaper;
