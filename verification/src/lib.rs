pub mod snake_game;
