pub mod zmq;
