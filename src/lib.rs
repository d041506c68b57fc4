pub mod bridge;
pub mod device;
pub mod dma;
pub mod error;
pub mod grpc;
pub mod handle;
pub mod nvme;
