//! The verified core of a bridge between ROS2/DDS topics and motors driven
//! through the motorbridge ABI: the command line, the manifest and its
//! checks, the naming rules for vendors, transports and topics, the state
//! kept for each joint and the decisions of the bridge loop.

pub mod abi;
pub mod cli;
pub mod clock;
pub mod config;
pub mod manifest_tools;
pub mod ros2_adapter;
pub mod runtime;
pub mod text;
pub mod types;
