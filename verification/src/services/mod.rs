pub mod ai_service;
