pub mod syscall_handler;
pub mod syscall_request;
pub mod syscall_response;
