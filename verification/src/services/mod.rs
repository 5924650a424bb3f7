pub mod tool_service;
